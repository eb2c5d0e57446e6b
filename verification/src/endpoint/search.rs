//! Search.

use vstd::prelude::*;

use crate::auth::{text_view, AuthFlow};
use crate::endpoint::{number_text, optional, required, Builder, Endpoint, Query};
use crate::http::{pair_keys, Answer, ApiCall, ApiCallView, Method};
use crate::text::{comma_joined, query_list, texts};

verus! {

/// The kinds of item that a search can look for.
#[derive(Clone, Copy, Debug, PartialEq, Eq, Structural)]
pub enum Item {
    Album,
    Artist,
    Playlist,
    Track,
    Show,
    Episode,
    Audiobook,
}

impl Item {
    /// The name on the wire.
    pub open spec fn name(&self) -> Seq<char> {
        match self {
            Item::Album => "album"@,
            Item::Artist => "artist"@,
            Item::Playlist => "playlist"@,
            Item::Track => "track"@,
            Item::Show => "show"@,
            Item::Episode => "episode"@,
            Item::Audiobook => "audiobook"@,
        }
    }

    /// The name on the wire.
    pub fn as_str(&self) -> (r: &'static str)
        ensures
            r@ == self.name(),
    {
        match self {
            Item::Album => "album",
            Item::Artist => "artist",
            Item::Playlist => "playlist",
            Item::Track => "track",
            Item::Show => "show",
            Item::Episode => "episode",
            Item::Audiobook => "audiobook",
        }
    }
}

/// The wire names of a list of item kinds.
pub open spec fn item_names(items: Seq<Item>) -> Seq<Seq<char>> {
    Seq::new(items.len(), |i: int| items[i].name())
}

/// A list of item kinds as one query value: their names, comma-joined.
pub fn item_list(items: &[Item]) -> (r: String)
    ensures
        r@ == comma_joined(item_names(items@)),
{
    let mut names: Vec<&str> = Vec::new();
    let mut i: usize = 0;
    while i < items.len()
        invariant
            i <= items.len(),
            names@.len() == i,
            forall|k: int| 0 <= k < i ==> (#[trigger] names@[k])@ == items@[k].name(),
        decreases items.len() - i,
    {
        names.push(items[i].as_str());
        i += 1;
    }
    assert(texts(names@) =~= item_names(items@));
    query_list(names.as_slice())
}

/// Searches the catalogue.
///
/// `GET /search`, answered with a document
#[derive(Clone, Debug, PartialEq, Eq)]
pub struct SearchEndpoint {
    pub query: String,
    pub item_types: String,
    pub market: Option<String>,
    pub limit: Option<u32>,
    pub offset: Option<u32>,
    pub include_external: Option<String>,
}

impl SearchEndpoint {
    /// The query that the record makes.
    pub open spec fn pairs(&self) -> Seq<(Seq<char>, Seq<char>)> {
        required("q"@, self.query@)
            + required("type"@, self.item_types@)
            + optional("market"@, text_view(self.market))
            + optional("limit"@, number_text(self.limit))
            + optional("offset"@, number_text(self.offset))
            + optional("include_external"@, text_view(self.include_external))
    }
}

impl Endpoint for SearchEndpoint {
    open spec fn describes(&self) -> ApiCallView {
        ApiCallView {
            method: Method::Get,
            path: "/search"@,
            query: self.pairs(),
            body: None,
            answer: Answer::Document,
        }
    }

    open spec fn bare(&self) -> bool {
        &&& self.market is None
        &&& self.limit is None
        &&& self.offset is None
        &&& self.include_external is None
    }

    open spec fn optional_keys(&self) -> Seq<Seq<char>> {
        seq!["market"@, "limit"@, "offset"@, "include_external"@]
    }

    fn call(&self) -> (call: ApiCall) {
        let mut query = Query::new();
        query.text("q", self.query.as_str());
        query.text("type", self.item_types.as_str());
        query.optional_text("market", &self.market);
        query.optional_number("limit", self.limit);
        query.optional_number("offset", self.offset);
        query.optional_text("include_external", &self.include_external);
        assert(query@ =~= self.pairs());
        ApiCall {
            method: Method::Get,
            path: "/search".to_owned(),
            query: query.pairs,
            body: None,
            answer: Answer::Document,
        }
    }

    proof fn lemma_bare_is_silent(&self) {
        reveal_strlit("q");
        reveal_strlit("type");
        reveal_strlit("market");
        reveal_strlit("limit");
        reveal_strlit("offset");
        reveal_strlit("include_external");
        assert("market"@.len() != "q"@.len());
        assert("market"@.len() != "type"@.len());
        assert("limit"@.len() != "q"@.len());
        assert("limit"@.len() != "type"@.len());
        assert("offset"@.len() != "q"@.len());
        assert("offset"@.len() != "type"@.len());
        assert("include_external"@.len() != "q"@.len());
        assert("include_external"@.len() != "type"@.len());
        assert(pair_keys(self.pairs()) =~= seq!["q"@, "type"@]);
    }

    proof fn lemma_path_is_rooted(&self) {
        reveal_strlit("/search");
    }
}

impl<'s, F: AuthFlow> Builder<'s, F, SearchEndpoint> {
    /// The market whose catalogue is read: an ISO 3166-1 alpha-2 country code.
    pub fn market(self, market: &str) -> (b: Self)
        ensures
            b.spotify == self.spotify,
            b.endpoint == (SearchEndpoint { market: b.endpoint.market, ..self.endpoint }),
            b.endpoint.market matches Some(set) && set@ == market@,
    {
        let mut b = self;
        b.endpoint.market = Some(market.to_owned());
        b
    }

    /// The most items to return.
    pub fn limit(self, limit: u32) -> (b: Self)
        ensures
            b.spotify == self.spotify,
            b.endpoint == (SearchEndpoint { limit: b.endpoint.limit, ..self.endpoint }),
            b.endpoint.limit == Some(limit),
    {
        let mut b = self;
        b.endpoint.limit = Some(limit);
        b
    }

    /// The index of the first item to return.
    pub fn offset(self, offset: u32) -> (b: Self)
        ensures
            b.spotify == self.spotify,
            b.endpoint == (SearchEndpoint { offset: b.endpoint.offset, ..self.endpoint }),
            b.endpoint.offset == Some(offset),
    {
        let mut b = self;
        b.endpoint.offset = Some(offset);
        b
    }

    /// Which content hosted elsewhere may be marked as playable.
    pub fn include_external(self, include_external: &str) -> (b: Self)
        ensures
            b.spotify == self.spotify,
            b.endpoint == (SearchEndpoint {
                include_external: b.endpoint.include_external,
                ..self.endpoint
            }),
            b.endpoint.include_external matches Some(set) && set@ == include_external@,
    {
        let mut b = self;
        b.endpoint.include_external = Some(include_external.to_owned());
        b
    }
}

} // verus!
