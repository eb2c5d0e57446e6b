//! Albums.

use vstd::prelude::*;

use crate::auth::{text_view, AuthFlow};
use crate::endpoint::{number_text, optional, required, Builder, Endpoint, Query};
use crate::http::{pair_keys, Answer, ApiCall, ApiCallView, Method};
use crate::text::{concat2, concat3};

verus! {

/// One album.
///
/// `GET /albums/{id}`, answered with a document
#[derive(Clone, Debug, PartialEq, Eq)]
pub struct AlbumEndpoint {
    pub id: String,
    pub market: Option<String>,
}

impl AlbumEndpoint {
    /// The query that the record makes.
    pub open spec fn pairs(&self) -> Seq<(Seq<char>, Seq<char>)> {
        optional("market"@, text_view(self.market))
    }
}

impl Endpoint for AlbumEndpoint {
    open spec fn describes(&self) -> ApiCallView {
        ApiCallView {
            method: Method::Get,
            path: "/albums/"@ + self.id@,
            query: self.pairs(),
            body: None,
            answer: Answer::Document,
        }
    }

    open spec fn bare(&self) -> bool {
        self.market is None
    }

    open spec fn optional_keys(&self) -> Seq<Seq<char>> {
        seq!["market"@]
    }

    fn call(&self) -> (call: ApiCall) {
        let mut query = Query::new();
        query.optional_text("market", &self.market);
        assert(query@ =~= self.pairs());
        ApiCall {
            method: Method::Get,
            path: concat2("/albums/", self.id.as_str()),
            query: query.pairs,
            body: None,
            answer: Answer::Document,
        }
    }

    proof fn lemma_bare_is_silent(&self) {
        assert(pair_keys(self.pairs()) =~= Seq::empty());
    }

    proof fn lemma_path_is_rooted(&self) {
        reveal_strlit("/albums/");
    }
}

impl<'s, F: AuthFlow> Builder<'s, F, AlbumEndpoint> {
    /// The market whose catalogue is read: an ISO 3166-1 alpha-2 country code.
    pub fn market(self, market: &str) -> (b: Self)
        ensures
            b.spotify == self.spotify,
            b.endpoint == (AlbumEndpoint { market: b.endpoint.market, ..self.endpoint }),
            b.endpoint.market matches Some(set) && set@ == market@,
    {
        let mut b = self;
        b.endpoint.market = Some(market.to_owned());
        b
    }
}

/// Several albums.
///
/// `GET /albums`, answered with a document
#[derive(Clone, Debug, PartialEq, Eq)]
pub struct AlbumsEndpoint {
    pub ids: String,
    pub market: Option<String>,
}

impl AlbumsEndpoint {
    /// The query that the record makes.
    pub open spec fn pairs(&self) -> Seq<(Seq<char>, Seq<char>)> {
        required("ids"@, self.ids@)
            + optional("market"@, text_view(self.market))
    }
}

impl Endpoint for AlbumsEndpoint {
    open spec fn describes(&self) -> ApiCallView {
        ApiCallView {
            method: Method::Get,
            path: "/albums"@,
            query: self.pairs(),
            body: None,
            answer: Answer::Document,
        }
    }

    open spec fn bare(&self) -> bool {
        self.market is None
    }

    open spec fn optional_keys(&self) -> Seq<Seq<char>> {
        seq!["market"@]
    }

    fn call(&self) -> (call: ApiCall) {
        let mut query = Query::new();
        query.text("ids", self.ids.as_str());
        query.optional_text("market", &self.market);
        assert(query@ =~= self.pairs());
        ApiCall {
            method: Method::Get,
            path: "/albums".to_owned(),
            query: query.pairs,
            body: None,
            answer: Answer::Document,
        }
    }

    proof fn lemma_bare_is_silent(&self) {
        reveal_strlit("ids");
        reveal_strlit("market");
        assert("market"@.len() != "ids"@.len());
        assert(pair_keys(self.pairs()) =~= seq!["ids"@]);
    }

    proof fn lemma_path_is_rooted(&self) {
        reveal_strlit("/albums");
    }
}

impl<'s, F: AuthFlow> Builder<'s, F, AlbumsEndpoint> {
    /// The market whose catalogue is read: an ISO 3166-1 alpha-2 country code.
    pub fn market(self, market: &str) -> (b: Self)
        ensures
            b.spotify == self.spotify,
            b.endpoint == (AlbumsEndpoint { market: b.endpoint.market, ..self.endpoint }),
            b.endpoint.market matches Some(set) && set@ == market@,
    {
        let mut b = self;
        b.endpoint.market = Some(market.to_owned());
        b
    }
}

/// The tracks of an album.
///
/// `GET /albums/{id}/tracks`, answered with a document
#[derive(Clone, Debug, PartialEq, Eq)]
pub struct AlbumTracksEndpoint {
    pub id: String,
    pub market: Option<String>,
    pub limit: Option<u32>,
    pub offset: Option<u32>,
}

impl AlbumTracksEndpoint {
    /// The query that the record makes.
    pub open spec fn pairs(&self) -> Seq<(Seq<char>, Seq<char>)> {
        optional("market"@, text_view(self.market))
            + optional("limit"@, number_text(self.limit))
            + optional("offset"@, number_text(self.offset))
    }
}

impl Endpoint for AlbumTracksEndpoint {
    open spec fn describes(&self) -> ApiCallView {
        ApiCallView {
            method: Method::Get,
            path: "/albums/"@ + self.id@ + "/tracks"@,
            query: self.pairs(),
            body: None,
            answer: Answer::Document,
        }
    }

    open spec fn bare(&self) -> bool {
        self.market is None && self.limit is None && self.offset is None
    }

    open spec fn optional_keys(&self) -> Seq<Seq<char>> {
        seq!["market"@, "limit"@, "offset"@]
    }

    fn call(&self) -> (call: ApiCall) {
        let mut query = Query::new();
        query.optional_text("market", &self.market);
        query.optional_number("limit", self.limit);
        query.optional_number("offset", self.offset);
        assert(query@ =~= self.pairs());
        ApiCall {
            method: Method::Get,
            path: concat3("/albums/", self.id.as_str(), "/tracks"),
            query: query.pairs,
            body: None,
            answer: Answer::Document,
        }
    }

    proof fn lemma_bare_is_silent(&self) {
        assert(pair_keys(self.pairs()) =~= Seq::empty());
    }

    proof fn lemma_path_is_rooted(&self) {
        reveal_strlit("/albums/");
    }
}

impl<'s, F: AuthFlow> Builder<'s, F, AlbumTracksEndpoint> {
    /// The market whose catalogue is read: an ISO 3166-1 alpha-2 country code.
    pub fn market(self, market: &str) -> (b: Self)
        ensures
            b.spotify == self.spotify,
            b.endpoint == (AlbumTracksEndpoint { market: b.endpoint.market, ..self.endpoint }),
            b.endpoint.market matches Some(set) && set@ == market@,
    {
        let mut b = self;
        b.endpoint.market = Some(market.to_owned());
        b
    }

    /// The most items to return.
    pub fn limit(self, limit: u32) -> (b: Self)
        ensures
            b.spotify == self.spotify,
            b.endpoint == (AlbumTracksEndpoint { limit: b.endpoint.limit, ..self.endpoint }),
            b.endpoint.limit == Some(limit),
    {
        let mut b = self;
        b.endpoint.limit = Some(limit);
        b
    }

    /// The index of the first item to return.
    pub fn offset(self, offset: u32) -> (b: Self)
        ensures
            b.spotify == self.spotify,
            b.endpoint == (AlbumTracksEndpoint { offset: b.endpoint.offset, ..self.endpoint }),
            b.endpoint.offset == Some(offset),
    {
        let mut b = self;
        b.endpoint.offset = Some(offset);
        b
    }
}

/// The albums that were released of late.
///
/// `GET /browse/new-releases`, answered with a document
#[derive(Clone, Debug, PartialEq, Eq)]
pub struct NewReleasesEndpoint {
    pub country: Option<String>,
    pub limit: Option<u32>,
    pub offset: Option<u32>,
}

impl NewReleasesEndpoint {
    /// The query that the record makes.
    pub open spec fn pairs(&self) -> Seq<(Seq<char>, Seq<char>)> {
        optional("country"@, text_view(self.country))
            + optional("limit"@, number_text(self.limit))
            + optional("offset"@, number_text(self.offset))
    }
}

impl Endpoint for NewReleasesEndpoint {
    open spec fn describes(&self) -> ApiCallView {
        ApiCallView {
            method: Method::Get,
            path: "/browse/new-releases"@,
            query: self.pairs(),
            body: None,
            answer: Answer::Document,
        }
    }

    open spec fn bare(&self) -> bool {
        self.country is None && self.limit is None && self.offset is None
    }

    open spec fn optional_keys(&self) -> Seq<Seq<char>> {
        seq!["country"@, "limit"@, "offset"@]
    }

    fn call(&self) -> (call: ApiCall) {
        let mut query = Query::new();
        query.optional_text("country", &self.country);
        query.optional_number("limit", self.limit);
        query.optional_number("offset", self.offset);
        assert(query@ =~= self.pairs());
        ApiCall {
            method: Method::Get,
            path: "/browse/new-releases".to_owned(),
            query: query.pairs,
            body: None,
            answer: Answer::Document,
        }
    }

    proof fn lemma_bare_is_silent(&self) {
        assert(pair_keys(self.pairs()) =~= Seq::empty());
    }

    proof fn lemma_path_is_rooted(&self) {
        reveal_strlit("/browse/new-releases");
    }
}

impl<'s, F: AuthFlow> Builder<'s, F, NewReleasesEndpoint> {
    /// The country whose content is read: an ISO 3166-1 alpha-2 country code.
    pub fn country(self, country: &str) -> (b: Self)
        ensures
            b.spotify == self.spotify,
            b.endpoint == (NewReleasesEndpoint { country: b.endpoint.country, ..self.endpoint }),
            b.endpoint.country matches Some(set) && set@ == country@,
    {
        let mut b = self;
        b.endpoint.country = Some(country.to_owned());
        b
    }

    /// The most items to return.
    pub fn limit(self, limit: u32) -> (b: Self)
        ensures
            b.spotify == self.spotify,
            b.endpoint == (NewReleasesEndpoint { limit: b.endpoint.limit, ..self.endpoint }),
            b.endpoint.limit == Some(limit),
    {
        let mut b = self;
        b.endpoint.limit = Some(limit);
        b
    }

    /// The index of the first item to return.
    pub fn offset(self, offset: u32) -> (b: Self)
        ensures
            b.spotify == self.spotify,
            b.endpoint == (NewReleasesEndpoint { offset: b.endpoint.offset, ..self.endpoint }),
            b.endpoint.offset == Some(offset),
    {
        let mut b = self;
        b.endpoint.offset = Some(offset);
        b
    }
}

/// The albums in the user's library.
///
/// `GET /me/albums`, answered with a document
#[derive(Clone, Debug, PartialEq, Eq)]
pub struct SavedAlbumsEndpoint {
    pub limit: Option<u32>,
    pub offset: Option<u32>,
    pub market: Option<String>,
}

impl SavedAlbumsEndpoint {
    /// The query that the record makes.
    pub open spec fn pairs(&self) -> Seq<(Seq<char>, Seq<char>)> {
        optional("limit"@, number_text(self.limit))
            + optional("offset"@, number_text(self.offset))
            + optional("market"@, text_view(self.market))
    }
}

impl Endpoint for SavedAlbumsEndpoint {
    open spec fn describes(&self) -> ApiCallView {
        ApiCallView {
            method: Method::Get,
            path: "/me/albums"@,
            query: self.pairs(),
            body: None,
            answer: Answer::Document,
        }
    }

    open spec fn bare(&self) -> bool {
        self.limit is None && self.offset is None && self.market is None
    }

    open spec fn optional_keys(&self) -> Seq<Seq<char>> {
        seq!["limit"@, "offset"@, "market"@]
    }

    fn call(&self) -> (call: ApiCall) {
        let mut query = Query::new();
        query.optional_number("limit", self.limit);
        query.optional_number("offset", self.offset);
        query.optional_text("market", &self.market);
        assert(query@ =~= self.pairs());
        ApiCall {
            method: Method::Get,
            path: "/me/albums".to_owned(),
            query: query.pairs,
            body: None,
            answer: Answer::Document,
        }
    }

    proof fn lemma_bare_is_silent(&self) {
        assert(pair_keys(self.pairs()) =~= Seq::empty());
    }

    proof fn lemma_path_is_rooted(&self) {
        reveal_strlit("/me/albums");
    }
}

impl<'s, F: AuthFlow> Builder<'s, F, SavedAlbumsEndpoint> {
    /// The most items to return.
    pub fn limit(self, limit: u32) -> (b: Self)
        ensures
            b.spotify == self.spotify,
            b.endpoint == (SavedAlbumsEndpoint { limit: b.endpoint.limit, ..self.endpoint }),
            b.endpoint.limit == Some(limit),
    {
        let mut b = self;
        b.endpoint.limit = Some(limit);
        b
    }

    /// The index of the first item to return.
    pub fn offset(self, offset: u32) -> (b: Self)
        ensures
            b.spotify == self.spotify,
            b.endpoint == (SavedAlbumsEndpoint { offset: b.endpoint.offset, ..self.endpoint }),
            b.endpoint.offset == Some(offset),
    {
        let mut b = self;
        b.endpoint.offset = Some(offset);
        b
    }

    /// The market whose catalogue is read: an ISO 3166-1 alpha-2 country code.
    pub fn market(self, market: &str) -> (b: Self)
        ensures
            b.spotify == self.spotify,
            b.endpoint == (SavedAlbumsEndpoint { market: b.endpoint.market, ..self.endpoint }),
            b.endpoint.market matches Some(set) && set@ == market@,
    {
        let mut b = self;
        b.endpoint.market = Some(market.to_owned());
        b
    }
}

} // verus!
