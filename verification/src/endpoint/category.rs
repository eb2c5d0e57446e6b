//! The categories that tag items.

use vstd::prelude::*;

use crate::auth::{text_view, AuthFlow};
use crate::endpoint::{number_text, optional, Builder, Endpoint, Query};
use crate::http::{pair_keys, Answer, ApiCall, ApiCallView, Method};
use crate::text::concat2;

verus! {

/// One category.
///
/// `GET /browse/categories/{id}`, answered with a document
#[derive(Clone, Debug, PartialEq, Eq)]
pub struct BrowseCategoryEndpoint {
    pub id: String,
    pub country: Option<String>,
    pub locale: Option<String>,
}

impl BrowseCategoryEndpoint {
    /// The query that the record makes.
    pub open spec fn pairs(&self) -> Seq<(Seq<char>, Seq<char>)> {
        optional("country"@, text_view(self.country))
            + optional("locale"@, text_view(self.locale))
    }
}

impl Endpoint for BrowseCategoryEndpoint {
    open spec fn describes(&self) -> ApiCallView {
        ApiCallView {
            method: Method::Get,
            path: "/browse/categories/"@ + self.id@,
            query: self.pairs(),
            body: None,
            answer: Answer::Document,
        }
    }

    open spec fn bare(&self) -> bool {
        self.country is None && self.locale is None
    }

    open spec fn optional_keys(&self) -> Seq<Seq<char>> {
        seq!["country"@, "locale"@]
    }

    fn call(&self) -> (call: ApiCall) {
        let mut query = Query::new();
        query.optional_text("country", &self.country);
        query.optional_text("locale", &self.locale);
        assert(query@ =~= self.pairs());
        ApiCall {
            method: Method::Get,
            path: concat2("/browse/categories/", self.id.as_str()),
            query: query.pairs,
            body: None,
            answer: Answer::Document,
        }
    }

    proof fn lemma_bare_is_silent(&self) {
        assert(pair_keys(self.pairs()) =~= Seq::empty());
    }

    proof fn lemma_path_is_rooted(&self) {
        reveal_strlit("/browse/categories/");
    }
}

impl<'s, F: AuthFlow> Builder<'s, F, BrowseCategoryEndpoint> {
    /// The country whose content is read: an ISO 3166-1 alpha-2 country code.
    pub fn country(self, country: &str) -> (b: Self)
        ensures
            b.spotify == self.spotify,
            b.endpoint == (BrowseCategoryEndpoint { country: b.endpoint.country, ..self.endpoint }),
            b.endpoint.country matches Some(set) && set@ == country@,
    {
        let mut b = self;
        b.endpoint.country = Some(country.to_owned());
        b
    }

    /// The language of the answer: a language code and a country code, joined by an underscore.
    pub fn locale(self, locale: &str) -> (b: Self)
        ensures
            b.spotify == self.spotify,
            b.endpoint == (BrowseCategoryEndpoint { locale: b.endpoint.locale, ..self.endpoint }),
            b.endpoint.locale matches Some(set) && set@ == locale@,
    {
        let mut b = self;
        b.endpoint.locale = Some(locale.to_owned());
        b
    }
}

/// The categories that items are tagged with.
///
/// `GET /browse/categories`, answered with a document
#[derive(Clone, Debug, PartialEq, Eq)]
pub struct BrowseCategoriesEndpoint {
    pub country: Option<String>,
    pub locale: Option<String>,
    pub limit: Option<u32>,
    pub offset: Option<u32>,
}

impl BrowseCategoriesEndpoint {
    /// The query that the record makes.
    pub open spec fn pairs(&self) -> Seq<(Seq<char>, Seq<char>)> {
        optional("country"@, text_view(self.country))
            + optional("locale"@, text_view(self.locale))
            + optional("limit"@, number_text(self.limit))
            + optional("offset"@, number_text(self.offset))
    }
}

impl Endpoint for BrowseCategoriesEndpoint {
    open spec fn describes(&self) -> ApiCallView {
        ApiCallView {
            method: Method::Get,
            path: "/browse/categories"@,
            query: self.pairs(),
            body: None,
            answer: Answer::Document,
        }
    }

    open spec fn bare(&self) -> bool {
        self.country is None && self.locale is None && self.limit is None && self.offset is None
    }

    open spec fn optional_keys(&self) -> Seq<Seq<char>> {
        seq!["country"@, "locale"@, "limit"@, "offset"@]
    }

    fn call(&self) -> (call: ApiCall) {
        let mut query = Query::new();
        query.optional_text("country", &self.country);
        query.optional_text("locale", &self.locale);
        query.optional_number("limit", self.limit);
        query.optional_number("offset", self.offset);
        assert(query@ =~= self.pairs());
        ApiCall {
            method: Method::Get,
            path: "/browse/categories".to_owned(),
            query: query.pairs,
            body: None,
            answer: Answer::Document,
        }
    }

    proof fn lemma_bare_is_silent(&self) {
        assert(pair_keys(self.pairs()) =~= Seq::empty());
    }

    proof fn lemma_path_is_rooted(&self) {
        reveal_strlit("/browse/categories");
    }
}

impl<'s, F: AuthFlow> Builder<'s, F, BrowseCategoriesEndpoint> {
    /// The country whose content is read: an ISO 3166-1 alpha-2 country code.
    pub fn country(self, country: &str) -> (b: Self)
        ensures
            b.spotify == self.spotify,
            b.endpoint == (BrowseCategoriesEndpoint {
                country: b.endpoint.country,
                ..self.endpoint
            }),
            b.endpoint.country matches Some(set) && set@ == country@,
    {
        let mut b = self;
        b.endpoint.country = Some(country.to_owned());
        b
    }

    /// The language of the answer: a language code and a country code, joined by an underscore.
    pub fn locale(self, locale: &str) -> (b: Self)
        ensures
            b.spotify == self.spotify,
            b.endpoint == (BrowseCategoriesEndpoint { locale: b.endpoint.locale, ..self.endpoint }),
            b.endpoint.locale matches Some(set) && set@ == locale@,
    {
        let mut b = self;
        b.endpoint.locale = Some(locale.to_owned());
        b
    }

    /// The most items to return.
    pub fn limit(self, limit: u32) -> (b: Self)
        ensures
            b.spotify == self.spotify,
            b.endpoint == (BrowseCategoriesEndpoint { limit: b.endpoint.limit, ..self.endpoint }),
            b.endpoint.limit == Some(limit),
    {
        let mut b = self;
        b.endpoint.limit = Some(limit);
        b
    }

    /// The index of the first item to return.
    pub fn offset(self, offset: u32) -> (b: Self)
        ensures
            b.spotify == self.spotify,
            b.endpoint == (BrowseCategoriesEndpoint { offset: b.endpoint.offset, ..self.endpoint }),
            b.endpoint.offset == Some(offset),
    {
        let mut b = self;
        b.endpoint.offset = Some(offset);
        b
    }
}

} // verus!
