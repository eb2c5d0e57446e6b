//! What a user follows and plays most.

use vstd::prelude::*;

use crate::auth::{text_view, AuthFlow};
use crate::endpoint::{number_text, optional, required, Builder, Endpoint, Query};
use crate::http::{pair_keys, Answer, ApiCall, ApiCallView, Body, BodyView, Method};
use crate::json::{field, json_flag, keys_of, optional_field, text_array, Fields, JsonValue};
use crate::text::{concat2, concat3, owned_texts};

verus! {

/// The kinds of item that a user's ranking can hold.
#[derive(Clone, Copy, Debug, PartialEq, Eq, Structural)]
pub enum UserItemType {
    Artists,
    Tracks,
}

impl UserItemType {
    /// The name on the wire.
    pub open spec fn name(&self) -> Seq<char> {
        match self {
            UserItemType::Artists => "artists"@,
            UserItemType::Tracks => "tracks"@,
        }
    }

    /// The name on the wire.
    pub fn as_str(&self) -> (r: &'static str)
        ensures
            r@ == self.name(),
    {
        match self {
            UserItemType::Artists => "artists",
            UserItemType::Tracks => "tracks",
        }
    }
}

/// The span of time that a ranking looks at.
#[derive(Clone, Copy, Debug, PartialEq, Eq, Structural)]
pub enum TimeRange {
    /// About four weeks.
    ShortTerm,
    /// About six months.
    MediumTerm,
    /// Several years.
    LongTerm,
}

impl TimeRange {
    /// The name on the wire.
    pub open spec fn name(&self) -> Seq<char> {
        match self {
            TimeRange::ShortTerm => "short_term"@,
            TimeRange::MediumTerm => "medium_term"@,
            TimeRange::LongTerm => "long_term"@,
        }
    }

    /// The name of an optional value.
    pub open spec fn optional_name(value: Option<TimeRange>) -> Option<Seq<char>> {
        match value {
            Some(chosen) => Some(chosen.name()),
            None => None,
        }
    }

    /// The name on the wire.
    pub fn as_str(&self) -> (r: &'static str)
        ensures
            r@ == self.name(),
    {
        match self {
            TimeRange::ShortTerm => "short_term",
            TimeRange::MediumTerm => "medium_term",
            TimeRange::LongTerm => "long_term",
        }
    }
}

/// The artists or tracks that the user plays most.
///
/// `GET /me/top/{item_type}`, answered with a document
#[derive(Clone, Debug, PartialEq, Eq)]
pub struct UserTopItemsEndpoint {
    pub item_type: UserItemType,
    pub time_range: Option<TimeRange>,
    pub limit: Option<u32>,
    pub offset: Option<u32>,
}

impl UserTopItemsEndpoint {
    /// The query that the record makes.
    pub open spec fn pairs(&self) -> Seq<(Seq<char>, Seq<char>)> {
        optional("time_range"@, TimeRange::optional_name(self.time_range))
            + optional("limit"@, number_text(self.limit))
            + optional("offset"@, number_text(self.offset))
    }
}

impl Endpoint for UserTopItemsEndpoint {
    open spec fn describes(&self) -> ApiCallView {
        ApiCallView {
            method: Method::Get,
            path: "/me/top/"@ + self.item_type.name(),
            query: self.pairs(),
            body: None,
            answer: Answer::Document,
        }
    }

    open spec fn bare(&self) -> bool {
        self.time_range is None && self.limit is None && self.offset is None
    }

    open spec fn optional_keys(&self) -> Seq<Seq<char>> {
        seq!["time_range"@, "limit"@, "offset"@]
    }

    fn call(&self) -> (call: ApiCall) {
        let mut query = Query::new();
        match &self.time_range {
            Some(chosen) => {
                query.text("time_range", chosen.as_str());
            },
            None => {},
        }
        query.optional_number("limit", self.limit);
        query.optional_number("offset", self.offset);
        assert(query@ =~= self.pairs());
        ApiCall {
            method: Method::Get,
            path: concat2("/me/top/", self.item_type.as_str()),
            query: query.pairs,
            body: None,
            answer: Answer::Document,
        }
    }

    proof fn lemma_bare_is_silent(&self) {
        assert(pair_keys(self.pairs()) =~= Seq::empty());
    }

    proof fn lemma_path_is_rooted(&self) {
        reveal_strlit("/me/top/");
    }
}

impl<'s, F: AuthFlow> Builder<'s, F, UserTopItemsEndpoint> {
    /// The span of time that the ranking looks at.
    pub fn time_range(self, time_range: TimeRange) -> (b: Self)
        ensures
            b.spotify == self.spotify,
            b.endpoint == (UserTopItemsEndpoint {
                time_range: b.endpoint.time_range,
                ..self.endpoint
            }),
            b.endpoint.time_range == Some(time_range),
    {
        let mut b = self;
        b.endpoint.time_range = Some(time_range);
        b
    }

    /// The most items to return.
    pub fn limit(self, limit: u32) -> (b: Self)
        ensures
            b.spotify == self.spotify,
            b.endpoint == (UserTopItemsEndpoint { limit: b.endpoint.limit, ..self.endpoint }),
            b.endpoint.limit == Some(limit),
    {
        let mut b = self;
        b.endpoint.limit = Some(limit);
        b
    }

    /// The index of the first item to return.
    pub fn offset(self, offset: u32) -> (b: Self)
        ensures
            b.spotify == self.spotify,
            b.endpoint == (UserTopItemsEndpoint { offset: b.endpoint.offset, ..self.endpoint }),
            b.endpoint.offset == Some(offset),
    {
        let mut b = self;
        b.endpoint.offset = Some(offset);
        b
    }
}

/// Follows a playlist.
///
/// `PUT /playlists/{id}/followers`, answered with no content
#[derive(Clone, Debug, PartialEq, Eq)]
pub struct FollowPlaylistBuilder {
    pub id: String,
    pub public: Option<bool>,
}

impl FollowPlaylistBuilder {
    /// The members of the body that the record makes.
    pub open spec fn members(&self) -> Seq<(Seq<char>, JsonValue)> {
        optional_field("public"@, json_flag(self.public))
    }
}

impl Endpoint for FollowPlaylistBuilder {
    open spec fn describes(&self) -> ApiCallView {
        ApiCallView {
            method: Method::Put,
            path: "/playlists/"@ + self.id@ + "/followers"@,
            query: Seq::empty(),
            body: Some(BodyView::Json(JsonValue::Object(self.members()))),
            answer: Answer::Nothing,
        }
    }

    open spec fn bare(&self) -> bool {
        self.public is None
    }

    open spec fn optional_keys(&self) -> Seq<Seq<char>> {
        seq!["public"@]
    }

    fn call(&self) -> (call: ApiCall) {
        let query = Query::new();
        let mut members = Fields::new();
        members.optional_flag("public", self.public);
        assert(members@ =~= self.members());
        ApiCall {
            method: Method::Put,
            path: concat3("/playlists/", self.id.as_str(), "/followers"),
            query: query.pairs,
            body: Some(Body::Json(members.into_object())),
            answer: Answer::Nothing,
        }
    }

    proof fn lemma_bare_is_silent(&self) {
        assert(keys_of(self.members()) =~= Seq::empty());
    }

    proof fn lemma_path_is_rooted(&self) {
        reveal_strlit("/playlists/");
    }
}

impl<'s, F: AuthFlow> Builder<'s, F, FollowPlaylistBuilder> {
    /// Whether the playlist shows on the user's profile.
    pub fn public(self, public: bool) -> (b: Self)
        ensures
            b.spotify == self.spotify,
            b.endpoint == (FollowPlaylistBuilder { public: b.endpoint.public, ..self.endpoint }),
            b.endpoint.public == Some(public),
    {
        let mut b = self;
        b.endpoint.public = Some(public);
        b
    }
}

/// The artists that the user follows.
///
/// `GET /me/following`, answered with a document
#[derive(Clone, Debug, PartialEq, Eq)]
pub struct FollowedArtistsBuilder {
    pub kind: String,
    pub after: Option<String>,
    pub limit: Option<u32>,
}

impl FollowedArtistsBuilder {
    /// The query that the record makes.
    pub open spec fn pairs(&self) -> Seq<(Seq<char>, Seq<char>)> {
        required("type"@, self.kind@)
            + optional("after"@, text_view(self.after))
            + optional("limit"@, number_text(self.limit))
    }
}

impl Endpoint for FollowedArtistsBuilder {
    open spec fn describes(&self) -> ApiCallView {
        ApiCallView {
            method: Method::Get,
            path: "/me/following"@,
            query: self.pairs(),
            body: None,
            answer: Answer::Document,
        }
    }

    open spec fn bare(&self) -> bool {
        self.after is None && self.limit is None
    }

    open spec fn optional_keys(&self) -> Seq<Seq<char>> {
        seq!["after"@, "limit"@]
    }

    fn call(&self) -> (call: ApiCall) {
        let mut query = Query::new();
        query.text("type", self.kind.as_str());
        query.optional_text("after", &self.after);
        query.optional_number("limit", self.limit);
        assert(query@ =~= self.pairs());
        ApiCall {
            method: Method::Get,
            path: "/me/following".to_owned(),
            query: query.pairs,
            body: None,
            answer: Answer::Document,
        }
    }

    proof fn lemma_bare_is_silent(&self) {
        reveal_strlit("type");
        reveal_strlit("after");
        reveal_strlit("limit");
        assert("after"@.len() != "type"@.len());
        assert("limit"@.len() != "type"@.len());
        assert(pair_keys(self.pairs()) =~= seq!["type"@]);
    }

    proof fn lemma_path_is_rooted(&self) {
        reveal_strlit("/me/following");
    }
}

impl<'s, F: AuthFlow> Builder<'s, F, FollowedArtistsBuilder> {
    /// The id of the last artist of the page before.
    pub fn after(self, after: &str) -> (b: Self)
        ensures
            b.spotify == self.spotify,
            b.endpoint == (FollowedArtistsBuilder { after: b.endpoint.after, ..self.endpoint }),
            b.endpoint.after matches Some(set) && set@ == after@,
    {
        let mut b = self;
        b.endpoint.after = Some(after.to_owned());
        b
    }

    /// The most items to return.
    pub fn limit(self, limit: u32) -> (b: Self)
        ensures
            b.spotify == self.spotify,
            b.endpoint == (FollowedArtistsBuilder { limit: b.endpoint.limit, ..self.endpoint }),
            b.endpoint.limit == Some(limit),
    {
        let mut b = self;
        b.endpoint.limit = Some(limit);
        b
    }
}

/// Follows artists or users.
///
/// `PUT /me/following`, answered with no content
#[derive(Clone, Debug, PartialEq, Eq)]
pub struct FollowUserOrArtistEndpoint {
    pub kind: String,
    pub ids: Vec<String>,
}

impl FollowUserOrArtistEndpoint {
    /// The query that the record makes.
    pub open spec fn pairs(&self) -> Seq<(Seq<char>, Seq<char>)> {
        required("type"@, self.kind@)
    }

    /// The members of the body that the record makes.
    pub open spec fn members(&self) -> Seq<(Seq<char>, JsonValue)> {
        field("ids"@, text_array(owned_texts(self.ids@)))
    }
}

impl Endpoint for FollowUserOrArtistEndpoint {
    open spec fn describes(&self) -> ApiCallView {
        ApiCallView {
            method: Method::Put,
            path: "/me/following"@,
            query: self.pairs(),
            body: Some(BodyView::Json(JsonValue::Object(self.members()))),
            answer: Answer::Nothing,
        }
    }

    open spec fn bare(&self) -> bool {
        true
    }

    open spec fn optional_keys(&self) -> Seq<Seq<char>> {
        Seq::empty()
    }

    fn call(&self) -> (call: ApiCall) {
        let mut query = Query::new();
        query.text("type", self.kind.as_str());
        assert(query@ =~= self.pairs());
        let mut members = Fields::new();
        members.list("ids", &self.ids);
        assert(members@ =~= self.members());
        ApiCall {
            method: Method::Put,
            path: "/me/following".to_owned(),
            query: query.pairs,
            body: Some(Body::Json(members.into_object())),
            answer: Answer::Nothing,
        }
    }

    proof fn lemma_bare_is_silent(&self) {
    }

    proof fn lemma_path_is_rooted(&self) {
        reveal_strlit("/me/following");
    }
}

} // verus!
