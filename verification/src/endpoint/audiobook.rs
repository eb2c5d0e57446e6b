//! Audiobooks and their chapters.

use vstd::prelude::*;

use crate::auth::{text_view, AuthFlow};
use crate::endpoint::{number_text, optional, required, Builder, Endpoint, Query};
use crate::http::{pair_keys, Answer, ApiCall, ApiCallView, Method};
use crate::text::{concat2, concat3};

verus! {

/// One audiobook.
///
/// `GET /audiobooks/{id}`, answered with a document
#[derive(Clone, Debug, PartialEq, Eq)]
pub struct AudiobookEndpoint {
    pub id: String,
    pub market: Option<String>,
}

impl AudiobookEndpoint {
    /// The query that the record makes.
    pub open spec fn pairs(&self) -> Seq<(Seq<char>, Seq<char>)> {
        optional("market"@, text_view(self.market))
    }
}

impl Endpoint for AudiobookEndpoint {
    open spec fn describes(&self) -> ApiCallView {
        ApiCallView {
            method: Method::Get,
            path: "/audiobooks/"@ + self.id@,
            query: self.pairs(),
            body: None,
            answer: Answer::Document,
        }
    }

    open spec fn bare(&self) -> bool {
        self.market is None
    }

    open spec fn optional_keys(&self) -> Seq<Seq<char>> {
        seq!["market"@]
    }

    fn call(&self) -> (call: ApiCall) {
        let mut query = Query::new();
        query.optional_text("market", &self.market);
        assert(query@ =~= self.pairs());
        ApiCall {
            method: Method::Get,
            path: concat2("/audiobooks/", self.id.as_str()),
            query: query.pairs,
            body: None,
            answer: Answer::Document,
        }
    }

    proof fn lemma_bare_is_silent(&self) {
        assert(pair_keys(self.pairs()) =~= Seq::empty());
    }

    proof fn lemma_path_is_rooted(&self) {
        reveal_strlit("/audiobooks/");
    }
}

impl<'s, F: AuthFlow> Builder<'s, F, AudiobookEndpoint> {
    /// The market whose catalogue is read: an ISO 3166-1 alpha-2 country code.
    pub fn market(self, market: &str) -> (b: Self)
        ensures
            b.spotify == self.spotify,
            b.endpoint == (AudiobookEndpoint { market: b.endpoint.market, ..self.endpoint }),
            b.endpoint.market matches Some(set) && set@ == market@,
    {
        let mut b = self;
        b.endpoint.market = Some(market.to_owned());
        b
    }
}

/// Several audiobooks.
///
/// `GET /audiobooks`, answered with a document
#[derive(Clone, Debug, PartialEq, Eq)]
pub struct AudiobooksEndpoint {
    pub ids: String,
    pub market: Option<String>,
}

impl AudiobooksEndpoint {
    /// The query that the record makes.
    pub open spec fn pairs(&self) -> Seq<(Seq<char>, Seq<char>)> {
        required("ids"@, self.ids@)
            + optional("market"@, text_view(self.market))
    }
}

impl Endpoint for AudiobooksEndpoint {
    open spec fn describes(&self) -> ApiCallView {
        ApiCallView {
            method: Method::Get,
            path: "/audiobooks"@,
            query: self.pairs(),
            body: None,
            answer: Answer::Document,
        }
    }

    open spec fn bare(&self) -> bool {
        self.market is None
    }

    open spec fn optional_keys(&self) -> Seq<Seq<char>> {
        seq!["market"@]
    }

    fn call(&self) -> (call: ApiCall) {
        let mut query = Query::new();
        query.text("ids", self.ids.as_str());
        query.optional_text("market", &self.market);
        assert(query@ =~= self.pairs());
        ApiCall {
            method: Method::Get,
            path: "/audiobooks".to_owned(),
            query: query.pairs,
            body: None,
            answer: Answer::Document,
        }
    }

    proof fn lemma_bare_is_silent(&self) {
        reveal_strlit("ids");
        reveal_strlit("market");
        assert("market"@.len() != "ids"@.len());
        assert(pair_keys(self.pairs()) =~= seq!["ids"@]);
    }

    proof fn lemma_path_is_rooted(&self) {
        reveal_strlit("/audiobooks");
    }
}

impl<'s, F: AuthFlow> Builder<'s, F, AudiobooksEndpoint> {
    /// The market whose catalogue is read: an ISO 3166-1 alpha-2 country code.
    pub fn market(self, market: &str) -> (b: Self)
        ensures
            b.spotify == self.spotify,
            b.endpoint == (AudiobooksEndpoint { market: b.endpoint.market, ..self.endpoint }),
            b.endpoint.market matches Some(set) && set@ == market@,
    {
        let mut b = self;
        b.endpoint.market = Some(market.to_owned());
        b
    }
}

/// The chapters of an audiobook.
///
/// `GET /audiobooks/{id}/chapters`, answered with a document
#[derive(Clone, Debug, PartialEq, Eq)]
pub struct AudiobookChaptersEndpoint {
    pub id: String,
    pub market: Option<String>,
    pub limit: Option<u32>,
    pub offset: Option<u32>,
}

impl AudiobookChaptersEndpoint {
    /// The query that the record makes.
    pub open spec fn pairs(&self) -> Seq<(Seq<char>, Seq<char>)> {
        optional("market"@, text_view(self.market))
            + optional("limit"@, number_text(self.limit))
            + optional("offset"@, number_text(self.offset))
    }
}

impl Endpoint for AudiobookChaptersEndpoint {
    open spec fn describes(&self) -> ApiCallView {
        ApiCallView {
            method: Method::Get,
            path: "/audiobooks/"@ + self.id@ + "/chapters"@,
            query: self.pairs(),
            body: None,
            answer: Answer::Document,
        }
    }

    open spec fn bare(&self) -> bool {
        self.market is None && self.limit is None && self.offset is None
    }

    open spec fn optional_keys(&self) -> Seq<Seq<char>> {
        seq!["market"@, "limit"@, "offset"@]
    }

    fn call(&self) -> (call: ApiCall) {
        let mut query = Query::new();
        query.optional_text("market", &self.market);
        query.optional_number("limit", self.limit);
        query.optional_number("offset", self.offset);
        assert(query@ =~= self.pairs());
        ApiCall {
            method: Method::Get,
            path: concat3("/audiobooks/", self.id.as_str(), "/chapters"),
            query: query.pairs,
            body: None,
            answer: Answer::Document,
        }
    }

    proof fn lemma_bare_is_silent(&self) {
        assert(pair_keys(self.pairs()) =~= Seq::empty());
    }

    proof fn lemma_path_is_rooted(&self) {
        reveal_strlit("/audiobooks/");
    }
}

impl<'s, F: AuthFlow> Builder<'s, F, AudiobookChaptersEndpoint> {
    /// The market whose catalogue is read: an ISO 3166-1 alpha-2 country code.
    pub fn market(self, market: &str) -> (b: Self)
        ensures
            b.spotify == self.spotify,
            b.endpoint == (AudiobookChaptersEndpoint {
                market: b.endpoint.market,
                ..self.endpoint
            }),
            b.endpoint.market matches Some(set) && set@ == market@,
    {
        let mut b = self;
        b.endpoint.market = Some(market.to_owned());
        b
    }

    /// The most items to return.
    pub fn limit(self, limit: u32) -> (b: Self)
        ensures
            b.spotify == self.spotify,
            b.endpoint == (AudiobookChaptersEndpoint { limit: b.endpoint.limit, ..self.endpoint }),
            b.endpoint.limit == Some(limit),
    {
        let mut b = self;
        b.endpoint.limit = Some(limit);
        b
    }

    /// The index of the first item to return.
    pub fn offset(self, offset: u32) -> (b: Self)
        ensures
            b.spotify == self.spotify,
            b.endpoint == (AudiobookChaptersEndpoint {
                offset: b.endpoint.offset,
                ..self.endpoint
            }),
            b.endpoint.offset == Some(offset),
    {
        let mut b = self;
        b.endpoint.offset = Some(offset);
        b
    }
}

/// One chapter.
///
/// `GET /chapters/{id}`, answered with a document
#[derive(Clone, Debug, PartialEq, Eq)]
pub struct ChapterEndpoint {
    pub id: String,
    pub market: Option<String>,
}

impl ChapterEndpoint {
    /// The query that the record makes.
    pub open spec fn pairs(&self) -> Seq<(Seq<char>, Seq<char>)> {
        optional("market"@, text_view(self.market))
    }
}

impl Endpoint for ChapterEndpoint {
    open spec fn describes(&self) -> ApiCallView {
        ApiCallView {
            method: Method::Get,
            path: "/chapters/"@ + self.id@,
            query: self.pairs(),
            body: None,
            answer: Answer::Document,
        }
    }

    open spec fn bare(&self) -> bool {
        self.market is None
    }

    open spec fn optional_keys(&self) -> Seq<Seq<char>> {
        seq!["market"@]
    }

    fn call(&self) -> (call: ApiCall) {
        let mut query = Query::new();
        query.optional_text("market", &self.market);
        assert(query@ =~= self.pairs());
        ApiCall {
            method: Method::Get,
            path: concat2("/chapters/", self.id.as_str()),
            query: query.pairs,
            body: None,
            answer: Answer::Document,
        }
    }

    proof fn lemma_bare_is_silent(&self) {
        assert(pair_keys(self.pairs()) =~= Seq::empty());
    }

    proof fn lemma_path_is_rooted(&self) {
        reveal_strlit("/chapters/");
    }
}

impl<'s, F: AuthFlow> Builder<'s, F, ChapterEndpoint> {
    /// The market whose catalogue is read: an ISO 3166-1 alpha-2 country code.
    pub fn market(self, market: &str) -> (b: Self)
        ensures
            b.spotify == self.spotify,
            b.endpoint == (ChapterEndpoint { market: b.endpoint.market, ..self.endpoint }),
            b.endpoint.market matches Some(set) && set@ == market@,
    {
        let mut b = self;
        b.endpoint.market = Some(market.to_owned());
        b
    }
}

/// Several chapters.
///
/// `GET /chapters`, answered with a document
#[derive(Clone, Debug, PartialEq, Eq)]
pub struct ChaptersEndpoint {
    pub ids: String,
    pub market: Option<String>,
}

impl ChaptersEndpoint {
    /// The query that the record makes.
    pub open spec fn pairs(&self) -> Seq<(Seq<char>, Seq<char>)> {
        required("ids"@, self.ids@)
            + optional("market"@, text_view(self.market))
    }
}

impl Endpoint for ChaptersEndpoint {
    open spec fn describes(&self) -> ApiCallView {
        ApiCallView {
            method: Method::Get,
            path: "/chapters"@,
            query: self.pairs(),
            body: None,
            answer: Answer::Document,
        }
    }

    open spec fn bare(&self) -> bool {
        self.market is None
    }

    open spec fn optional_keys(&self) -> Seq<Seq<char>> {
        seq!["market"@]
    }

    fn call(&self) -> (call: ApiCall) {
        let mut query = Query::new();
        query.text("ids", self.ids.as_str());
        query.optional_text("market", &self.market);
        assert(query@ =~= self.pairs());
        ApiCall {
            method: Method::Get,
            path: "/chapters".to_owned(),
            query: query.pairs,
            body: None,
            answer: Answer::Document,
        }
    }

    proof fn lemma_bare_is_silent(&self) {
        reveal_strlit("ids");
        reveal_strlit("market");
        assert("market"@.len() != "ids"@.len());
        assert(pair_keys(self.pairs()) =~= seq!["ids"@]);
    }

    proof fn lemma_path_is_rooted(&self) {
        reveal_strlit("/chapters");
    }
}

impl<'s, F: AuthFlow> Builder<'s, F, ChaptersEndpoint> {
    /// The market whose catalogue is read: an ISO 3166-1 alpha-2 country code.
    pub fn market(self, market: &str) -> (b: Self)
        ensures
            b.spotify == self.spotify,
            b.endpoint == (ChaptersEndpoint { market: b.endpoint.market, ..self.endpoint }),
            b.endpoint.market matches Some(set) && set@ == market@,
    {
        let mut b = self;
        b.endpoint.market = Some(market.to_owned());
        b
    }
}

/// The audiobooks in the user's library.
///
/// `GET /me/audiobooks`, answered with a document
#[derive(Clone, Debug, PartialEq, Eq)]
pub struct SavedAudiobooksEndpoint {
    pub limit: Option<u32>,
    pub offset: Option<u32>,
}

impl SavedAudiobooksEndpoint {
    /// The query that the record makes.
    pub open spec fn pairs(&self) -> Seq<(Seq<char>, Seq<char>)> {
        optional("limit"@, number_text(self.limit))
            + optional("offset"@, number_text(self.offset))
    }
}

impl Endpoint for SavedAudiobooksEndpoint {
    open spec fn describes(&self) -> ApiCallView {
        ApiCallView {
            method: Method::Get,
            path: "/me/audiobooks"@,
            query: self.pairs(),
            body: None,
            answer: Answer::Document,
        }
    }

    open spec fn bare(&self) -> bool {
        self.limit is None && self.offset is None
    }

    open spec fn optional_keys(&self) -> Seq<Seq<char>> {
        seq!["limit"@, "offset"@]
    }

    fn call(&self) -> (call: ApiCall) {
        let mut query = Query::new();
        query.optional_number("limit", self.limit);
        query.optional_number("offset", self.offset);
        assert(query@ =~= self.pairs());
        ApiCall {
            method: Method::Get,
            path: "/me/audiobooks".to_owned(),
            query: query.pairs,
            body: None,
            answer: Answer::Document,
        }
    }

    proof fn lemma_bare_is_silent(&self) {
        assert(pair_keys(self.pairs()) =~= Seq::empty());
    }

    proof fn lemma_path_is_rooted(&self) {
        reveal_strlit("/me/audiobooks");
    }
}

impl<'s, F: AuthFlow> Builder<'s, F, SavedAudiobooksEndpoint> {
    /// The most items to return.
    pub fn limit(self, limit: u32) -> (b: Self)
        ensures
            b.spotify == self.spotify,
            b.endpoint == (SavedAudiobooksEndpoint { limit: b.endpoint.limit, ..self.endpoint }),
            b.endpoint.limit == Some(limit),
    {
        let mut b = self;
        b.endpoint.limit = Some(limit);
        b
    }

    /// The index of the first item to return.
    pub fn offset(self, offset: u32) -> (b: Self)
        ensures
            b.spotify == self.spotify,
            b.endpoint == (SavedAudiobooksEndpoint { offset: b.endpoint.offset, ..self.endpoint }),
            b.endpoint.offset == Some(offset),
    {
        let mut b = self;
        b.endpoint.offset = Some(offset);
        b
    }
}

} // verus!
