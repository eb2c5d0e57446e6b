//! Artists.

use vstd::prelude::*;

use crate::endpoint::{Endpoint, Query};
use crate::http::{Answer, ApiCall, ApiCallView, Method};
use crate::text::concat2;

verus! {

/// One artist.
///
/// `GET /artists/{id}`, answered with a document
#[derive(Clone, Debug, PartialEq, Eq)]
pub struct ArtistEndpoint {
    pub id: String,
}

impl Endpoint for ArtistEndpoint {
    open spec fn describes(&self) -> ApiCallView {
        ApiCallView {
            method: Method::Get,
            path: "/artists/"@ + self.id@,
            query: Seq::empty(),
            body: None,
            answer: Answer::Document,
        }
    }

    open spec fn bare(&self) -> bool {
        true
    }

    open spec fn optional_keys(&self) -> Seq<Seq<char>> {
        Seq::empty()
    }

    fn call(&self) -> (call: ApiCall) {
        let query = Query::new();
        ApiCall {
            method: Method::Get,
            path: concat2("/artists/", self.id.as_str()),
            query: query.pairs,
            body: None,
            answer: Answer::Document,
        }
    }

    proof fn lemma_bare_is_silent(&self) {
    }

    proof fn lemma_path_is_rooted(&self) {
        reveal_strlit("/artists/");
    }
}

} // verus!
