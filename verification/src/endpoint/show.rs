//! Shows and their episodes.

use vstd::prelude::*;

use crate::auth::{text_view, AuthFlow};
use crate::endpoint::{number_text, optional, required, Builder, Endpoint, Query};
use crate::http::{pair_keys, Answer, ApiCall, ApiCallView, Method};
use crate::text::{concat2, concat3};

verus! {

/// One show.
///
/// `GET /shows/{id}`, answered with a document
#[derive(Clone, Debug, PartialEq, Eq)]
pub struct ShowEndpoint {
    pub id: String,
    pub market: Option<String>,
}

impl ShowEndpoint {
    /// The query that the record makes.
    pub open spec fn pairs(&self) -> Seq<(Seq<char>, Seq<char>)> {
        optional("market"@, text_view(self.market))
    }
}

impl Endpoint for ShowEndpoint {
    open spec fn describes(&self) -> ApiCallView {
        ApiCallView {
            method: Method::Get,
            path: "/shows/"@ + self.id@,
            query: self.pairs(),
            body: None,
            answer: Answer::Document,
        }
    }

    open spec fn bare(&self) -> bool {
        self.market is None
    }

    open spec fn optional_keys(&self) -> Seq<Seq<char>> {
        seq!["market"@]
    }

    fn call(&self) -> (call: ApiCall) {
        let mut query = Query::new();
        query.optional_text("market", &self.market);
        assert(query@ =~= self.pairs());
        ApiCall {
            method: Method::Get,
            path: concat2("/shows/", self.id.as_str()),
            query: query.pairs,
            body: None,
            answer: Answer::Document,
        }
    }

    proof fn lemma_bare_is_silent(&self) {
        assert(pair_keys(self.pairs()) =~= Seq::empty());
    }

    proof fn lemma_path_is_rooted(&self) {
        reveal_strlit("/shows/");
    }
}

impl<'s, F: AuthFlow> Builder<'s, F, ShowEndpoint> {
    /// The market whose catalogue is read: an ISO 3166-1 alpha-2 country code.
    pub fn market(self, market: &str) -> (b: Self)
        ensures
            b.spotify == self.spotify,
            b.endpoint == (ShowEndpoint { market: b.endpoint.market, ..self.endpoint }),
            b.endpoint.market matches Some(set) && set@ == market@,
    {
        let mut b = self;
        b.endpoint.market = Some(market.to_owned());
        b
    }
}

/// Several shows.
///
/// `GET /shows`, answered with a document
#[derive(Clone, Debug, PartialEq, Eq)]
pub struct ShowsEndpoint {
    pub ids: String,
    pub market: Option<String>,
}

impl ShowsEndpoint {
    /// The query that the record makes.
    pub open spec fn pairs(&self) -> Seq<(Seq<char>, Seq<char>)> {
        required("ids"@, self.ids@)
            + optional("market"@, text_view(self.market))
    }
}

impl Endpoint for ShowsEndpoint {
    open spec fn describes(&self) -> ApiCallView {
        ApiCallView {
            method: Method::Get,
            path: "/shows"@,
            query: self.pairs(),
            body: None,
            answer: Answer::Document,
        }
    }

    open spec fn bare(&self) -> bool {
        self.market is None
    }

    open spec fn optional_keys(&self) -> Seq<Seq<char>> {
        seq!["market"@]
    }

    fn call(&self) -> (call: ApiCall) {
        let mut query = Query::new();
        query.text("ids", self.ids.as_str());
        query.optional_text("market", &self.market);
        assert(query@ =~= self.pairs());
        ApiCall {
            method: Method::Get,
            path: "/shows".to_owned(),
            query: query.pairs,
            body: None,
            answer: Answer::Document,
        }
    }

    proof fn lemma_bare_is_silent(&self) {
        reveal_strlit("ids");
        reveal_strlit("market");
        assert("market"@.len() != "ids"@.len());
        assert(pair_keys(self.pairs()) =~= seq!["ids"@]);
    }

    proof fn lemma_path_is_rooted(&self) {
        reveal_strlit("/shows");
    }
}

impl<'s, F: AuthFlow> Builder<'s, F, ShowsEndpoint> {
    /// The market whose catalogue is read: an ISO 3166-1 alpha-2 country code.
    pub fn market(self, market: &str) -> (b: Self)
        ensures
            b.spotify == self.spotify,
            b.endpoint == (ShowsEndpoint { market: b.endpoint.market, ..self.endpoint }),
            b.endpoint.market matches Some(set) && set@ == market@,
    {
        let mut b = self;
        b.endpoint.market = Some(market.to_owned());
        b
    }
}

/// The episodes of a show.
///
/// `GET /shows/{show_id}/episodes`, answered with a document
#[derive(Clone, Debug, PartialEq, Eq)]
pub struct ShowEpisodesEndpoint {
    pub show_id: String,
    pub market: Option<String>,
    pub limit: Option<u32>,
    pub offset: Option<u32>,
}

impl ShowEpisodesEndpoint {
    /// The query that the record makes.
    pub open spec fn pairs(&self) -> Seq<(Seq<char>, Seq<char>)> {
        optional("market"@, text_view(self.market))
            + optional("limit"@, number_text(self.limit))
            + optional("offset"@, number_text(self.offset))
    }
}

impl Endpoint for ShowEpisodesEndpoint {
    open spec fn describes(&self) -> ApiCallView {
        ApiCallView {
            method: Method::Get,
            path: "/shows/"@ + self.show_id@ + "/episodes"@,
            query: self.pairs(),
            body: None,
            answer: Answer::Document,
        }
    }

    open spec fn bare(&self) -> bool {
        self.market is None && self.limit is None && self.offset is None
    }

    open spec fn optional_keys(&self) -> Seq<Seq<char>> {
        seq!["market"@, "limit"@, "offset"@]
    }

    fn call(&self) -> (call: ApiCall) {
        let mut query = Query::new();
        query.optional_text("market", &self.market);
        query.optional_number("limit", self.limit);
        query.optional_number("offset", self.offset);
        assert(query@ =~= self.pairs());
        ApiCall {
            method: Method::Get,
            path: concat3("/shows/", self.show_id.as_str(), "/episodes"),
            query: query.pairs,
            body: None,
            answer: Answer::Document,
        }
    }

    proof fn lemma_bare_is_silent(&self) {
        assert(pair_keys(self.pairs()) =~= Seq::empty());
    }

    proof fn lemma_path_is_rooted(&self) {
        reveal_strlit("/shows/");
    }
}

impl<'s, F: AuthFlow> Builder<'s, F, ShowEpisodesEndpoint> {
    /// The market whose catalogue is read: an ISO 3166-1 alpha-2 country code.
    pub fn market(self, market: &str) -> (b: Self)
        ensures
            b.spotify == self.spotify,
            b.endpoint == (ShowEpisodesEndpoint { market: b.endpoint.market, ..self.endpoint }),
            b.endpoint.market matches Some(set) && set@ == market@,
    {
        let mut b = self;
        b.endpoint.market = Some(market.to_owned());
        b
    }

    /// The most items to return.
    pub fn limit(self, limit: u32) -> (b: Self)
        ensures
            b.spotify == self.spotify,
            b.endpoint == (ShowEpisodesEndpoint { limit: b.endpoint.limit, ..self.endpoint }),
            b.endpoint.limit == Some(limit),
    {
        let mut b = self;
        b.endpoint.limit = Some(limit);
        b
    }

    /// The index of the first item to return.
    pub fn offset(self, offset: u32) -> (b: Self)
        ensures
            b.spotify == self.spotify,
            b.endpoint == (ShowEpisodesEndpoint { offset: b.endpoint.offset, ..self.endpoint }),
            b.endpoint.offset == Some(offset),
    {
        let mut b = self;
        b.endpoint.offset = Some(offset);
        b
    }
}

/// The shows in the user's library.
///
/// `GET /me/shows`, answered with a document
#[derive(Clone, Debug, PartialEq, Eq)]
pub struct SavedShowsEndpoint {
    pub limit: Option<u32>,
    pub offset: Option<u32>,
}

impl SavedShowsEndpoint {
    /// The query that the record makes.
    pub open spec fn pairs(&self) -> Seq<(Seq<char>, Seq<char>)> {
        optional("limit"@, number_text(self.limit))
            + optional("offset"@, number_text(self.offset))
    }
}

impl Endpoint for SavedShowsEndpoint {
    open spec fn describes(&self) -> ApiCallView {
        ApiCallView {
            method: Method::Get,
            path: "/me/shows"@,
            query: self.pairs(),
            body: None,
            answer: Answer::Document,
        }
    }

    open spec fn bare(&self) -> bool {
        self.limit is None && self.offset is None
    }

    open spec fn optional_keys(&self) -> Seq<Seq<char>> {
        seq!["limit"@, "offset"@]
    }

    fn call(&self) -> (call: ApiCall) {
        let mut query = Query::new();
        query.optional_number("limit", self.limit);
        query.optional_number("offset", self.offset);
        assert(query@ =~= self.pairs());
        ApiCall {
            method: Method::Get,
            path: "/me/shows".to_owned(),
            query: query.pairs,
            body: None,
            answer: Answer::Document,
        }
    }

    proof fn lemma_bare_is_silent(&self) {
        assert(pair_keys(self.pairs()) =~= Seq::empty());
    }

    proof fn lemma_path_is_rooted(&self) {
        reveal_strlit("/me/shows");
    }
}

impl<'s, F: AuthFlow> Builder<'s, F, SavedShowsEndpoint> {
    /// The most items to return.
    pub fn limit(self, limit: u32) -> (b: Self)
        ensures
            b.spotify == self.spotify,
            b.endpoint == (SavedShowsEndpoint { limit: b.endpoint.limit, ..self.endpoint }),
            b.endpoint.limit == Some(limit),
    {
        let mut b = self;
        b.endpoint.limit = Some(limit);
        b
    }

    /// The index of the first item to return.
    pub fn offset(self, offset: u32) -> (b: Self)
        ensures
            b.spotify == self.spotify,
            b.endpoint == (SavedShowsEndpoint { offset: b.endpoint.offset, ..self.endpoint }),
            b.endpoint.offset == Some(offset),
    {
        let mut b = self;
        b.endpoint.offset = Some(offset);
        b
    }
}

/// One episode.
///
/// `GET /episodes/{id}`, answered with a document
#[derive(Clone, Debug, PartialEq, Eq)]
pub struct EpisodeEndpoint {
    pub id: String,
    pub market: Option<String>,
}

impl EpisodeEndpoint {
    /// The query that the record makes.
    pub open spec fn pairs(&self) -> Seq<(Seq<char>, Seq<char>)> {
        optional("market"@, text_view(self.market))
    }
}

impl Endpoint for EpisodeEndpoint {
    open spec fn describes(&self) -> ApiCallView {
        ApiCallView {
            method: Method::Get,
            path: "/episodes/"@ + self.id@,
            query: self.pairs(),
            body: None,
            answer: Answer::Document,
        }
    }

    open spec fn bare(&self) -> bool {
        self.market is None
    }

    open spec fn optional_keys(&self) -> Seq<Seq<char>> {
        seq!["market"@]
    }

    fn call(&self) -> (call: ApiCall) {
        let mut query = Query::new();
        query.optional_text("market", &self.market);
        assert(query@ =~= self.pairs());
        ApiCall {
            method: Method::Get,
            path: concat2("/episodes/", self.id.as_str()),
            query: query.pairs,
            body: None,
            answer: Answer::Document,
        }
    }

    proof fn lemma_bare_is_silent(&self) {
        assert(pair_keys(self.pairs()) =~= Seq::empty());
    }

    proof fn lemma_path_is_rooted(&self) {
        reveal_strlit("/episodes/");
    }
}

impl<'s, F: AuthFlow> Builder<'s, F, EpisodeEndpoint> {
    /// The market whose catalogue is read: an ISO 3166-1 alpha-2 country code.
    pub fn market(self, market: &str) -> (b: Self)
        ensures
            b.spotify == self.spotify,
            b.endpoint == (EpisodeEndpoint { market: b.endpoint.market, ..self.endpoint }),
            b.endpoint.market matches Some(set) && set@ == market@,
    {
        let mut b = self;
        b.endpoint.market = Some(market.to_owned());
        b
    }
}

/// Several episodes.
///
/// `GET /episodes`, answered with a document
#[derive(Clone, Debug, PartialEq, Eq)]
pub struct EpisodesEndpoint {
    pub ids: String,
    pub market: Option<String>,
}

impl EpisodesEndpoint {
    /// The query that the record makes.
    pub open spec fn pairs(&self) -> Seq<(Seq<char>, Seq<char>)> {
        required("ids"@, self.ids@)
            + optional("market"@, text_view(self.market))
    }
}

impl Endpoint for EpisodesEndpoint {
    open spec fn describes(&self) -> ApiCallView {
        ApiCallView {
            method: Method::Get,
            path: "/episodes"@,
            query: self.pairs(),
            body: None,
            answer: Answer::Document,
        }
    }

    open spec fn bare(&self) -> bool {
        self.market is None
    }

    open spec fn optional_keys(&self) -> Seq<Seq<char>> {
        seq!["market"@]
    }

    fn call(&self) -> (call: ApiCall) {
        let mut query = Query::new();
        query.text("ids", self.ids.as_str());
        query.optional_text("market", &self.market);
        assert(query@ =~= self.pairs());
        ApiCall {
            method: Method::Get,
            path: "/episodes".to_owned(),
            query: query.pairs,
            body: None,
            answer: Answer::Document,
        }
    }

    proof fn lemma_bare_is_silent(&self) {
        reveal_strlit("ids");
        reveal_strlit("market");
        assert("market"@.len() != "ids"@.len());
        assert(pair_keys(self.pairs()) =~= seq!["ids"@]);
    }

    proof fn lemma_path_is_rooted(&self) {
        reveal_strlit("/episodes");
    }
}

impl<'s, F: AuthFlow> Builder<'s, F, EpisodesEndpoint> {
    /// The market whose catalogue is read: an ISO 3166-1 alpha-2 country code.
    pub fn market(self, market: &str) -> (b: Self)
        ensures
            b.spotify == self.spotify,
            b.endpoint == (EpisodesEndpoint { market: b.endpoint.market, ..self.endpoint }),
            b.endpoint.market matches Some(set) && set@ == market@,
    {
        let mut b = self;
        b.endpoint.market = Some(market.to_owned());
        b
    }
}

/// The episodes in the user's library.
///
/// `GET /me/episodes`, answered with a document
#[derive(Clone, Debug, PartialEq, Eq)]
pub struct SavedEpisodesEndpoint {
    pub market: Option<String>,
    pub limit: Option<u32>,
    pub offset: Option<u32>,
}

impl SavedEpisodesEndpoint {
    /// The query that the record makes.
    pub open spec fn pairs(&self) -> Seq<(Seq<char>, Seq<char>)> {
        optional("market"@, text_view(self.market))
            + optional("limit"@, number_text(self.limit))
            + optional("offset"@, number_text(self.offset))
    }
}

impl Endpoint for SavedEpisodesEndpoint {
    open spec fn describes(&self) -> ApiCallView {
        ApiCallView {
            method: Method::Get,
            path: "/me/episodes"@,
            query: self.pairs(),
            body: None,
            answer: Answer::Document,
        }
    }

    open spec fn bare(&self) -> bool {
        self.market is None && self.limit is None && self.offset is None
    }

    open spec fn optional_keys(&self) -> Seq<Seq<char>> {
        seq!["market"@, "limit"@, "offset"@]
    }

    fn call(&self) -> (call: ApiCall) {
        let mut query = Query::new();
        query.optional_text("market", &self.market);
        query.optional_number("limit", self.limit);
        query.optional_number("offset", self.offset);
        assert(query@ =~= self.pairs());
        ApiCall {
            method: Method::Get,
            path: "/me/episodes".to_owned(),
            query: query.pairs,
            body: None,
            answer: Answer::Document,
        }
    }

    proof fn lemma_bare_is_silent(&self) {
        assert(pair_keys(self.pairs()) =~= Seq::empty());
    }

    proof fn lemma_path_is_rooted(&self) {
        reveal_strlit("/me/episodes");
    }
}

impl<'s, F: AuthFlow> Builder<'s, F, SavedEpisodesEndpoint> {
    /// The market whose catalogue is read: an ISO 3166-1 alpha-2 country code.
    pub fn market(self, market: &str) -> (b: Self)
        ensures
            b.spotify == self.spotify,
            b.endpoint == (SavedEpisodesEndpoint { market: b.endpoint.market, ..self.endpoint }),
            b.endpoint.market matches Some(set) && set@ == market@,
    {
        let mut b = self;
        b.endpoint.market = Some(market.to_owned());
        b
    }

    /// The most items to return.
    pub fn limit(self, limit: u32) -> (b: Self)
        ensures
            b.spotify == self.spotify,
            b.endpoint == (SavedEpisodesEndpoint { limit: b.endpoint.limit, ..self.endpoint }),
            b.endpoint.limit == Some(limit),
    {
        let mut b = self;
        b.endpoint.limit = Some(limit);
        b
    }

    /// The index of the first item to return.
    pub fn offset(self, offset: u32) -> (b: Self)
        ensures
            b.spotify == self.spotify,
            b.endpoint == (SavedEpisodesEndpoint { offset: b.endpoint.offset, ..self.endpoint }),
            b.endpoint.offset == Some(offset),
    {
        let mut b = self;
        b.endpoint.offset = Some(offset);
        b
    }
}

} // verus!
