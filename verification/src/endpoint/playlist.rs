//! Playlists.

use vstd::prelude::*;

use crate::auth::{text_view, AuthFlow};
use crate::endpoint::{number_text, optional, Builder, Endpoint, Query};
use crate::http::{pair_keys, Answer, ApiCall, ApiCallView, Body, BodyView, Method};
use crate::json::{
    field, json_flag, json_list, json_number, json_text, keyed_array, keys_of, optional_field,
    text_array, Fields, JsonValue,
};
use crate::text::{concat2, concat3, owned_list, owned_texts, texts};
use crate::time::{iso8601, Timestamp};

verus! {

/// One playlist.
///
/// `GET /playlists/{id}`, answered with a document
#[derive(Clone, Debug, PartialEq, Eq)]
pub struct PlaylistEndpoint {
    pub id: String,
    pub market: Option<String>,
    pub fields: Option<String>,
    pub additional_types: Option<String>,
}

impl PlaylistEndpoint {
    /// The query that the record makes.
    pub open spec fn pairs(&self) -> Seq<(Seq<char>, Seq<char>)> {
        optional("market"@, text_view(self.market))
            + optional("fields"@, text_view(self.fields))
            + optional("additional_types"@, text_view(self.additional_types))
    }
}

impl Endpoint for PlaylistEndpoint {
    open spec fn describes(&self) -> ApiCallView {
        ApiCallView {
            method: Method::Get,
            path: "/playlists/"@ + self.id@,
            query: self.pairs(),
            body: None,
            answer: Answer::Document,
        }
    }

    open spec fn bare(&self) -> bool {
        self.market is None && self.fields is None && self.additional_types is None
    }

    open spec fn optional_keys(&self) -> Seq<Seq<char>> {
        seq!["market"@, "fields"@, "additional_types"@]
    }

    fn call(&self) -> (call: ApiCall) {
        let mut query = Query::new();
        query.optional_text("market", &self.market);
        query.optional_text("fields", &self.fields);
        query.optional_text("additional_types", &self.additional_types);
        assert(query@ =~= self.pairs());
        ApiCall {
            method: Method::Get,
            path: concat2("/playlists/", self.id.as_str()),
            query: query.pairs,
            body: None,
            answer: Answer::Document,
        }
    }

    proof fn lemma_bare_is_silent(&self) {
        assert(pair_keys(self.pairs()) =~= Seq::empty());
    }

    proof fn lemma_path_is_rooted(&self) {
        reveal_strlit("/playlists/");
    }
}

impl<'s, F: AuthFlow> Builder<'s, F, PlaylistEndpoint> {
    /// The market whose catalogue is read: an ISO 3166-1 alpha-2 country code.
    pub fn market(self, market: &str) -> (b: Self)
        ensures
            b.spotify == self.spotify,
            b.endpoint == (PlaylistEndpoint { market: b.endpoint.market, ..self.endpoint }),
            b.endpoint.market matches Some(set) && set@ == market@,
    {
        let mut b = self;
        b.endpoint.market = Some(market.to_owned());
        b
    }

    /// The fields to return, as a comma-separated filter.
    pub fn fields(self, fields: &str) -> (b: Self)
        ensures
            b.spotify == self.spotify,
            b.endpoint == (PlaylistEndpoint { fields: b.endpoint.fields, ..self.endpoint }),
            b.endpoint.fields matches Some(set) && set@ == fields@,
    {
        let mut b = self;
        b.endpoint.fields = Some(fields.to_owned());
        b
    }

    /// The item types besides tracks that the caller can take.
    pub fn additional_types(self, additional_types: &str) -> (b: Self)
        ensures
            b.spotify == self.spotify,
            b.endpoint == (PlaylistEndpoint {
                additional_types: b.endpoint.additional_types,
                ..self.endpoint
            }),
            b.endpoint.additional_types matches Some(set) && set@ == additional_types@,
    {
        let mut b = self;
        b.endpoint.additional_types = Some(additional_types.to_owned());
        b
    }
}

/// Changes a playlist's name and visibility.
///
/// `PUT /playlists/{id}`, answered with no content
#[derive(Clone, Debug, PartialEq, Eq)]
pub struct ChangePlaylistDetailsEndpoint {
    pub id: String,
    pub name: Option<String>,
    pub public: Option<bool>,
    pub collaborative: Option<bool>,
    pub description: Option<String>,
}

impl ChangePlaylistDetailsEndpoint {
    /// The members of the body that the record makes.
    pub open spec fn members(&self) -> Seq<(Seq<char>, JsonValue)> {
        optional_field("name"@, json_text(text_view(self.name)))
            + optional_field("public"@, json_flag(self.public))
            + optional_field("collaborative"@, json_flag(self.collaborative))
            + optional_field("description"@, json_text(text_view(self.description)))
    }
}

impl Endpoint for ChangePlaylistDetailsEndpoint {
    open spec fn describes(&self) -> ApiCallView {
        ApiCallView {
            method: Method::Put,
            path: "/playlists/"@ + self.id@,
            query: Seq::empty(),
            body: Some(BodyView::Json(JsonValue::Object(self.members()))),
            answer: Answer::Nothing,
        }
    }

    open spec fn bare(&self) -> bool {
        &&& self.name is None
        &&& self.public is None
        &&& self.collaborative is None
        &&& self.description is None
    }

    open spec fn optional_keys(&self) -> Seq<Seq<char>> {
        seq!["name"@, "public"@, "collaborative"@, "description"@]
    }

    fn call(&self) -> (call: ApiCall) {
        let query = Query::new();
        let mut members = Fields::new();
        members.optional_text("name", &self.name);
        members.optional_flag("public", self.public);
        members.optional_flag("collaborative", self.collaborative);
        members.optional_text("description", &self.description);
        assert(members@ =~= self.members());
        ApiCall {
            method: Method::Put,
            path: concat2("/playlists/", self.id.as_str()),
            query: query.pairs,
            body: Some(Body::Json(members.into_object())),
            answer: Answer::Nothing,
        }
    }

    proof fn lemma_bare_is_silent(&self) {
        assert(keys_of(self.members()) =~= Seq::empty());
    }

    proof fn lemma_path_is_rooted(&self) {
        reveal_strlit("/playlists/");
    }
}

impl<'s, F: AuthFlow> Builder<'s, F, ChangePlaylistDetailsEndpoint> {
    /// The playlist's new name.
    pub fn name(self, name: &str) -> (b: Self)
        ensures
            b.spotify == self.spotify,
            b.endpoint == (ChangePlaylistDetailsEndpoint {
                name: b.endpoint.name,
                ..self.endpoint
            }),
            b.endpoint.name matches Some(set) && set@ == name@,
    {
        let mut b = self;
        b.endpoint.name = Some(name.to_owned());
        b
    }

    /// Whether the playlist shows on the user's profile.
    pub fn public(self, public: bool) -> (b: Self)
        ensures
            b.spotify == self.spotify,
            b.endpoint == (ChangePlaylistDetailsEndpoint {
                public: b.endpoint.public,
                ..self.endpoint
            }),
            b.endpoint.public == Some(public),
    {
        let mut b = self;
        b.endpoint.public = Some(public);
        b
    }

    /// Whether others may change the playlist.
    pub fn collaborative(self, collaborative: bool) -> (b: Self)
        ensures
            b.spotify == self.spotify,
            b.endpoint == (ChangePlaylistDetailsEndpoint {
                collaborative: b.endpoint.collaborative,
                ..self.endpoint
            }),
            b.endpoint.collaborative == Some(collaborative),
    {
        let mut b = self;
        b.endpoint.collaborative = Some(collaborative);
        b
    }

    /// The playlist's description.
    pub fn description(self, description: &str) -> (b: Self)
        ensures
            b.spotify == self.spotify,
            b.endpoint == (ChangePlaylistDetailsEndpoint {
                description: b.endpoint.description,
                ..self.endpoint
            }),
            b.endpoint.description matches Some(set) && set@ == description@,
    {
        let mut b = self;
        b.endpoint.description = Some(description.to_owned());
        b
    }
}

/// The items of a playlist.
///
/// `GET /playlists/{id}/tracks`, answered with a document
#[derive(Clone, Debug, PartialEq, Eq)]
pub struct PlaylistItemsEndpoint {
    pub id: String,
    pub market: Option<String>,
    pub fields: Option<String>,
    pub limit: Option<u32>,
    pub offset: Option<u32>,
    pub additional_types: Option<String>,
}

impl PlaylistItemsEndpoint {
    /// The query that the record makes.
    pub open spec fn pairs(&self) -> Seq<(Seq<char>, Seq<char>)> {
        optional("market"@, text_view(self.market))
            + optional("fields"@, text_view(self.fields))
            + optional("limit"@, number_text(self.limit))
            + optional("offset"@, number_text(self.offset))
            + optional("additional_types"@, text_view(self.additional_types))
    }
}

impl Endpoint for PlaylistItemsEndpoint {
    open spec fn describes(&self) -> ApiCallView {
        ApiCallView {
            method: Method::Get,
            path: "/playlists/"@ + self.id@ + "/tracks"@,
            query: self.pairs(),
            body: None,
            answer: Answer::Document,
        }
    }

    open spec fn bare(&self) -> bool {
        &&& self.market is None
        &&& self.fields is None
        &&& self.limit is None
        &&& self.offset is None
        &&& self.additional_types is None
    }

    open spec fn optional_keys(&self) -> Seq<Seq<char>> {
        seq!["market"@, "fields"@, "limit"@, "offset"@, "additional_types"@]
    }

    fn call(&self) -> (call: ApiCall) {
        let mut query = Query::new();
        query.optional_text("market", &self.market);
        query.optional_text("fields", &self.fields);
        query.optional_number("limit", self.limit);
        query.optional_number("offset", self.offset);
        query.optional_text("additional_types", &self.additional_types);
        assert(query@ =~= self.pairs());
        ApiCall {
            method: Method::Get,
            path: concat3("/playlists/", self.id.as_str(), "/tracks"),
            query: query.pairs,
            body: None,
            answer: Answer::Document,
        }
    }

    proof fn lemma_bare_is_silent(&self) {
        assert(pair_keys(self.pairs()) =~= Seq::empty());
    }

    proof fn lemma_path_is_rooted(&self) {
        reveal_strlit("/playlists/");
    }
}

impl<'s, F: AuthFlow> Builder<'s, F, PlaylistItemsEndpoint> {
    /// The market whose catalogue is read: an ISO 3166-1 alpha-2 country code.
    pub fn market(self, market: &str) -> (b: Self)
        ensures
            b.spotify == self.spotify,
            b.endpoint == (PlaylistItemsEndpoint { market: b.endpoint.market, ..self.endpoint }),
            b.endpoint.market matches Some(set) && set@ == market@,
    {
        let mut b = self;
        b.endpoint.market = Some(market.to_owned());
        b
    }

    /// The fields to return, as a comma-separated filter.
    pub fn fields(self, fields: &str) -> (b: Self)
        ensures
            b.spotify == self.spotify,
            b.endpoint == (PlaylistItemsEndpoint { fields: b.endpoint.fields, ..self.endpoint }),
            b.endpoint.fields matches Some(set) && set@ == fields@,
    {
        let mut b = self;
        b.endpoint.fields = Some(fields.to_owned());
        b
    }

    /// The most items to return.
    pub fn limit(self, limit: u32) -> (b: Self)
        ensures
            b.spotify == self.spotify,
            b.endpoint == (PlaylistItemsEndpoint { limit: b.endpoint.limit, ..self.endpoint }),
            b.endpoint.limit == Some(limit),
    {
        let mut b = self;
        b.endpoint.limit = Some(limit);
        b
    }

    /// The index of the first item to return.
    pub fn offset(self, offset: u32) -> (b: Self)
        ensures
            b.spotify == self.spotify,
            b.endpoint == (PlaylistItemsEndpoint { offset: b.endpoint.offset, ..self.endpoint }),
            b.endpoint.offset == Some(offset),
    {
        let mut b = self;
        b.endpoint.offset = Some(offset);
        b
    }

    /// The item types besides tracks that the caller can take.
    pub fn additional_types(self, additional_types: &str) -> (b: Self)
        ensures
            b.spotify == self.spotify,
            b.endpoint == (PlaylistItemsEndpoint {
                additional_types: b.endpoint.additional_types,
                ..self.endpoint
            }),
            b.endpoint.additional_types matches Some(set) && set@ == additional_types@,
    {
        let mut b = self;
        b.endpoint.additional_types = Some(additional_types.to_owned());
        b
    }
}

/// Moves or replaces the items of a playlist.
///
/// `PUT /playlists/{id}/tracks`, answered with a document
#[derive(Clone, Debug, PartialEq, Eq)]
pub struct UpdatePlaylistItemsEndpoint {
    pub id: String,
    pub range_start: u32,
    pub insert_before: u32,
    pub uris: Option<Vec<String>>,
    pub range_length: Option<u32>,
    pub snapshot_id: Option<String>,
}

impl UpdatePlaylistItemsEndpoint {
    /// The members of the body that the record makes.
    pub open spec fn members(&self) -> Seq<(Seq<char>, JsonValue)> {
        field("range_start"@, JsonValue::Integer(self.range_start as int))
            + field("insert_before"@, JsonValue::Integer(self.insert_before as int))
            + optional_field("uris"@, json_list(self.uris))
            + optional_field("range_length"@, json_number(self.range_length))
            + optional_field("snapshot_id"@, json_text(text_view(self.snapshot_id)))
    }
}

impl Endpoint for UpdatePlaylistItemsEndpoint {
    open spec fn describes(&self) -> ApiCallView {
        ApiCallView {
            method: Method::Put,
            path: "/playlists/"@ + self.id@ + "/tracks"@,
            query: Seq::empty(),
            body: Some(BodyView::Json(JsonValue::Object(self.members()))),
            answer: Answer::Document,
        }
    }

    open spec fn bare(&self) -> bool {
        self.uris is None && self.range_length is None && self.snapshot_id is None
    }

    open spec fn optional_keys(&self) -> Seq<Seq<char>> {
        seq!["uris"@, "range_length"@, "snapshot_id"@]
    }

    fn call(&self) -> (call: ApiCall) {
        let query = Query::new();
        let mut members = Fields::new();
        members.number("range_start", self.range_start);
        members.number("insert_before", self.insert_before);
        members.optional_list("uris", &self.uris);
        members.optional_number("range_length", self.range_length);
        members.optional_text("snapshot_id", &self.snapshot_id);
        assert(members@ =~= self.members());
        ApiCall {
            method: Method::Put,
            path: concat3("/playlists/", self.id.as_str(), "/tracks"),
            query: query.pairs,
            body: Some(Body::Json(members.into_object())),
            answer: Answer::Document,
        }
    }

    proof fn lemma_bare_is_silent(&self) {
        reveal_strlit("range_start");
        reveal_strlit("insert_before");
        reveal_strlit("uris");
        reveal_strlit("range_length");
        reveal_strlit("snapshot_id");
        assert("uris"@.len() != "range_start"@.len());
        assert("uris"@.len() != "insert_before"@.len());
        assert("range_length"@.len() != "range_start"@.len());
        assert("range_length"@.len() != "insert_before"@.len());
        assert("snapshot_id"@[0] != "range_start"@[0]);
        assert("snapshot_id"@.len() != "insert_before"@.len());
        assert(keys_of(self.members()) =~= seq!["range_start"@, "insert_before"@]);
    }

    proof fn lemma_path_is_rooted(&self) {
        reveal_strlit("/playlists/");
    }
}

impl<'s, F: AuthFlow> Builder<'s, F, UpdatePlaylistItemsEndpoint> {
    /// The items that replace the playlist's own.
    pub fn uris(self, uris: &[&str]) -> (b: Self)
        ensures
            b.spotify == self.spotify,
            b.endpoint == (UpdatePlaylistItemsEndpoint { uris: b.endpoint.uris, ..self.endpoint }),
            b.endpoint.uris matches Some(set) && owned_texts(set@) == texts(uris@),
    {
        let mut b = self;
        b.endpoint.uris = Some(owned_list(uris));
        b
    }

    /// How many items are moved; one where absent.
    pub fn range_length(self, range_length: u32) -> (b: Self)
        ensures
            b.spotify == self.spotify,
            b.endpoint == (UpdatePlaylistItemsEndpoint {
                range_length: b.endpoint.range_length,
                ..self.endpoint
            }),
            b.endpoint.range_length == Some(range_length),
    {
        let mut b = self;
        b.endpoint.range_length = Some(range_length);
        b
    }

    /// The version of the playlist that the change is made to.
    pub fn snapshot_id(self, snapshot_id: &str) -> (b: Self)
        ensures
            b.spotify == self.spotify,
            b.endpoint == (UpdatePlaylistItemsEndpoint {
                snapshot_id: b.endpoint.snapshot_id,
                ..self.endpoint
            }),
            b.endpoint.snapshot_id matches Some(set) && set@ == snapshot_id@,
    {
        let mut b = self;
        b.endpoint.snapshot_id = Some(snapshot_id.to_owned());
        b
    }
}

/// Adds items to a playlist.
///
/// `POST /playlists/{id}/tracks`, answered with a document
#[derive(Clone, Debug, PartialEq, Eq)]
pub struct AddPlaylistItemsEndpoint {
    pub id: String,
    pub uris: Vec<String>,
    pub position: Option<u32>,
}

impl AddPlaylistItemsEndpoint {
    /// The members of the body that the record makes.
    pub open spec fn members(&self) -> Seq<(Seq<char>, JsonValue)> {
        field("uris"@, text_array(owned_texts(self.uris@)))
            + optional_field("position"@, json_number(self.position))
    }
}

impl Endpoint for AddPlaylistItemsEndpoint {
    open spec fn describes(&self) -> ApiCallView {
        ApiCallView {
            method: Method::Post,
            path: "/playlists/"@ + self.id@ + "/tracks"@,
            query: Seq::empty(),
            body: Some(BodyView::Json(JsonValue::Object(self.members()))),
            answer: Answer::Document,
        }
    }

    open spec fn bare(&self) -> bool {
        self.position is None
    }

    open spec fn optional_keys(&self) -> Seq<Seq<char>> {
        seq!["position"@]
    }

    fn call(&self) -> (call: ApiCall) {
        let query = Query::new();
        let mut members = Fields::new();
        members.list("uris", &self.uris);
        members.optional_number("position", self.position);
        assert(members@ =~= self.members());
        ApiCall {
            method: Method::Post,
            path: concat3("/playlists/", self.id.as_str(), "/tracks"),
            query: query.pairs,
            body: Some(Body::Json(members.into_object())),
            answer: Answer::Document,
        }
    }

    proof fn lemma_bare_is_silent(&self) {
        reveal_strlit("uris");
        reveal_strlit("position");
        assert("position"@.len() != "uris"@.len());
        assert(keys_of(self.members()) =~= seq!["uris"@]);
    }

    proof fn lemma_path_is_rooted(&self) {
        reveal_strlit("/playlists/");
    }
}

impl<'s, F: AuthFlow> Builder<'s, F, AddPlaylistItemsEndpoint> {
    /// Where the items go; at the end where absent.
    pub fn position(self, position: u32) -> (b: Self)
        ensures
            b.spotify == self.spotify,
            b.endpoint == (AddPlaylistItemsEndpoint {
                position: b.endpoint.position,
                ..self.endpoint
            }),
            b.endpoint.position == Some(position),
    {
        let mut b = self;
        b.endpoint.position = Some(position);
        b
    }
}

/// Removes items from a playlist.
///
/// `DELETE /playlists/{id}/tracks`, answered with a document
#[derive(Clone, Debug, PartialEq, Eq)]
pub struct RemovePlaylistItemsEndpoint {
    pub id: String,
    pub tracks: Vec<String>,
    pub snapshot_id: Option<String>,
}

impl RemovePlaylistItemsEndpoint {
    /// The members of the body that the record makes.
    pub open spec fn members(&self) -> Seq<(Seq<char>, JsonValue)> {
        field("tracks"@, keyed_array("uri"@, owned_texts(self.tracks@)))
            + optional_field("snapshot_id"@, json_text(text_view(self.snapshot_id)))
    }
}

impl Endpoint for RemovePlaylistItemsEndpoint {
    open spec fn describes(&self) -> ApiCallView {
        ApiCallView {
            method: Method::Delete,
            path: "/playlists/"@ + self.id@ + "/tracks"@,
            query: Seq::empty(),
            body: Some(BodyView::Json(JsonValue::Object(self.members()))),
            answer: Answer::Document,
        }
    }

    open spec fn bare(&self) -> bool {
        self.snapshot_id is None
    }

    open spec fn optional_keys(&self) -> Seq<Seq<char>> {
        seq!["snapshot_id"@]
    }

    fn call(&self) -> (call: ApiCall) {
        let query = Query::new();
        let mut members = Fields::new();
        members.keyed_list("tracks", "uri", &self.tracks);
        members.optional_text("snapshot_id", &self.snapshot_id);
        assert(members@ =~= self.members());
        ApiCall {
            method: Method::Delete,
            path: concat3("/playlists/", self.id.as_str(), "/tracks"),
            query: query.pairs,
            body: Some(Body::Json(members.into_object())),
            answer: Answer::Document,
        }
    }

    proof fn lemma_bare_is_silent(&self) {
        reveal_strlit("tracks");
        reveal_strlit("snapshot_id");
        assert("snapshot_id"@.len() != "tracks"@.len());
        assert(keys_of(self.members()) =~= seq!["tracks"@]);
    }

    proof fn lemma_path_is_rooted(&self) {
        reveal_strlit("/playlists/");
    }
}

impl<'s, F: AuthFlow> Builder<'s, F, RemovePlaylistItemsEndpoint> {
    /// The version of the playlist that the change is made to.
    pub fn snapshot_id(self, snapshot_id: &str) -> (b: Self)
        ensures
            b.spotify == self.spotify,
            b.endpoint == (RemovePlaylistItemsEndpoint {
                snapshot_id: b.endpoint.snapshot_id,
                ..self.endpoint
            }),
            b.endpoint.snapshot_id matches Some(set) && set@ == snapshot_id@,
    {
        let mut b = self;
        b.endpoint.snapshot_id = Some(snapshot_id.to_owned());
        b
    }
}

/// The playlists that the user owns or follows.
///
/// `GET /me/playlists`, answered with a document
#[derive(Clone, Debug, PartialEq, Eq)]
pub struct CurrentUserPlaylistsEndpoint {
    pub limit: Option<u32>,
    pub offset: Option<u32>,
}

impl CurrentUserPlaylistsEndpoint {
    /// The query that the record makes.
    pub open spec fn pairs(&self) -> Seq<(Seq<char>, Seq<char>)> {
        optional("limit"@, number_text(self.limit))
            + optional("offset"@, number_text(self.offset))
    }
}

impl Endpoint for CurrentUserPlaylistsEndpoint {
    open spec fn describes(&self) -> ApiCallView {
        ApiCallView {
            method: Method::Get,
            path: "/me/playlists"@,
            query: self.pairs(),
            body: None,
            answer: Answer::Document,
        }
    }

    open spec fn bare(&self) -> bool {
        self.limit is None && self.offset is None
    }

    open spec fn optional_keys(&self) -> Seq<Seq<char>> {
        seq!["limit"@, "offset"@]
    }

    fn call(&self) -> (call: ApiCall) {
        let mut query = Query::new();
        query.optional_number("limit", self.limit);
        query.optional_number("offset", self.offset);
        assert(query@ =~= self.pairs());
        ApiCall {
            method: Method::Get,
            path: "/me/playlists".to_owned(),
            query: query.pairs,
            body: None,
            answer: Answer::Document,
        }
    }

    proof fn lemma_bare_is_silent(&self) {
        assert(pair_keys(self.pairs()) =~= Seq::empty());
    }

    proof fn lemma_path_is_rooted(&self) {
        reveal_strlit("/me/playlists");
    }
}

impl<'s, F: AuthFlow> Builder<'s, F, CurrentUserPlaylistsEndpoint> {
    /// The most items to return.
    pub fn limit(self, limit: u32) -> (b: Self)
        ensures
            b.spotify == self.spotify,
            b.endpoint == (CurrentUserPlaylistsEndpoint {
                limit: b.endpoint.limit,
                ..self.endpoint
            }),
            b.endpoint.limit == Some(limit),
    {
        let mut b = self;
        b.endpoint.limit = Some(limit);
        b
    }

    /// The index of the first item to return.
    pub fn offset(self, offset: u32) -> (b: Self)
        ensures
            b.spotify == self.spotify,
            b.endpoint == (CurrentUserPlaylistsEndpoint {
                offset: b.endpoint.offset,
                ..self.endpoint
            }),
            b.endpoint.offset == Some(offset),
    {
        let mut b = self;
        b.endpoint.offset = Some(offset);
        b
    }
}

/// The playlists of a user.
///
/// `GET /users/{id}/playlists`, answered with a document
#[derive(Clone, Debug, PartialEq, Eq)]
pub struct UserPlaylistsEndpoint {
    pub id: String,
    pub limit: Option<u32>,
    pub offset: Option<u32>,
}

impl UserPlaylistsEndpoint {
    /// The query that the record makes.
    pub open spec fn pairs(&self) -> Seq<(Seq<char>, Seq<char>)> {
        optional("limit"@, number_text(self.limit))
            + optional("offset"@, number_text(self.offset))
    }
}

impl Endpoint for UserPlaylistsEndpoint {
    open spec fn describes(&self) -> ApiCallView {
        ApiCallView {
            method: Method::Get,
            path: "/users/"@ + self.id@ + "/playlists"@,
            query: self.pairs(),
            body: None,
            answer: Answer::Document,
        }
    }

    open spec fn bare(&self) -> bool {
        self.limit is None && self.offset is None
    }

    open spec fn optional_keys(&self) -> Seq<Seq<char>> {
        seq!["limit"@, "offset"@]
    }

    fn call(&self) -> (call: ApiCall) {
        let mut query = Query::new();
        query.optional_number("limit", self.limit);
        query.optional_number("offset", self.offset);
        assert(query@ =~= self.pairs());
        ApiCall {
            method: Method::Get,
            path: concat3("/users/", self.id.as_str(), "/playlists"),
            query: query.pairs,
            body: None,
            answer: Answer::Document,
        }
    }

    proof fn lemma_bare_is_silent(&self) {
        assert(pair_keys(self.pairs()) =~= Seq::empty());
    }

    proof fn lemma_path_is_rooted(&self) {
        reveal_strlit("/users/");
    }
}

impl<'s, F: AuthFlow> Builder<'s, F, UserPlaylistsEndpoint> {
    /// The most items to return.
    pub fn limit(self, limit: u32) -> (b: Self)
        ensures
            b.spotify == self.spotify,
            b.endpoint == (UserPlaylistsEndpoint { limit: b.endpoint.limit, ..self.endpoint }),
            b.endpoint.limit == Some(limit),
    {
        let mut b = self;
        b.endpoint.limit = Some(limit);
        b
    }

    /// The index of the first item to return.
    pub fn offset(self, offset: u32) -> (b: Self)
        ensures
            b.spotify == self.spotify,
            b.endpoint == (UserPlaylistsEndpoint { offset: b.endpoint.offset, ..self.endpoint }),
            b.endpoint.offset == Some(offset),
    {
        let mut b = self;
        b.endpoint.offset = Some(offset);
        b
    }
}

/// Makes an empty playlist for a user.
///
/// `POST /users/{user_id}/playlists`, answered with a document
#[derive(Clone, Debug, PartialEq, Eq)]
pub struct CreatePlaylistEndpoint {
    pub user_id: String,
    pub name: String,
    pub public: Option<bool>,
    pub collaborative: Option<bool>,
    pub description: Option<String>,
}

impl CreatePlaylistEndpoint {
    /// The members of the body that the record makes.
    pub open spec fn members(&self) -> Seq<(Seq<char>, JsonValue)> {
        field("name"@, JsonValue::Text(self.name@))
            + optional_field("public"@, json_flag(self.public))
            + optional_field("collaborative"@, json_flag(self.collaborative))
            + optional_field("description"@, json_text(text_view(self.description)))
    }
}

impl Endpoint for CreatePlaylistEndpoint {
    open spec fn describes(&self) -> ApiCallView {
        ApiCallView {
            method: Method::Post,
            path: "/users/"@ + self.user_id@ + "/playlists"@,
            query: Seq::empty(),
            body: Some(BodyView::Json(JsonValue::Object(self.members()))),
            answer: Answer::Document,
        }
    }

    open spec fn bare(&self) -> bool {
        self.public is None && self.collaborative is None && self.description is None
    }

    open spec fn optional_keys(&self) -> Seq<Seq<char>> {
        seq!["public"@, "collaborative"@, "description"@]
    }

    fn call(&self) -> (call: ApiCall) {
        let query = Query::new();
        let mut members = Fields::new();
        members.text("name", self.name.as_str());
        members.optional_flag("public", self.public);
        members.optional_flag("collaborative", self.collaborative);
        members.optional_text("description", &self.description);
        assert(members@ =~= self.members());
        ApiCall {
            method: Method::Post,
            path: concat3("/users/", self.user_id.as_str(), "/playlists"),
            query: query.pairs,
            body: Some(Body::Json(members.into_object())),
            answer: Answer::Document,
        }
    }

    proof fn lemma_bare_is_silent(&self) {
        reveal_strlit("name");
        reveal_strlit("public");
        reveal_strlit("collaborative");
        reveal_strlit("description");
        assert("public"@.len() != "name"@.len());
        assert("collaborative"@.len() != "name"@.len());
        assert("description"@.len() != "name"@.len());
        assert(keys_of(self.members()) =~= seq!["name"@]);
    }

    proof fn lemma_path_is_rooted(&self) {
        reveal_strlit("/users/");
    }
}

impl<'s, F: AuthFlow> Builder<'s, F, CreatePlaylistEndpoint> {
    /// Whether the playlist shows on the user's profile.
    pub fn public(self, public: bool) -> (b: Self)
        ensures
            b.spotify == self.spotify,
            b.endpoint == (CreatePlaylistEndpoint { public: b.endpoint.public, ..self.endpoint }),
            b.endpoint.public == Some(public),
    {
        let mut b = self;
        b.endpoint.public = Some(public);
        b
    }

    /// Whether others may change the playlist.
    pub fn collaborative(self, collaborative: bool) -> (b: Self)
        ensures
            b.spotify == self.spotify,
            b.endpoint == (CreatePlaylistEndpoint {
                collaborative: b.endpoint.collaborative,
                ..self.endpoint
            }),
            b.endpoint.collaborative == Some(collaborative),
    {
        let mut b = self;
        b.endpoint.collaborative = Some(collaborative);
        b
    }

    /// The playlist's description.
    pub fn description(self, description: &str) -> (b: Self)
        ensures
            b.spotify == self.spotify,
            b.endpoint == (CreatePlaylistEndpoint {
                description: b.endpoint.description,
                ..self.endpoint
            }),
            b.endpoint.description matches Some(set) && set@ == description@,
    {
        let mut b = self;
        b.endpoint.description = Some(description.to_owned());
        b
    }
}

/// The playlists that are featured.
///
/// `GET /browse/featured-playlists`, answered with a document
#[derive(Clone, Debug, PartialEq, Eq)]
pub struct FeaturedPlaylistsEndpoint {
    pub country: Option<String>,
    pub locale: Option<String>,
    pub timestamp: Option<String>,
    pub limit: Option<u32>,
    pub offset: Option<u32>,
}

impl FeaturedPlaylistsEndpoint {
    /// The query that the record makes.
    pub open spec fn pairs(&self) -> Seq<(Seq<char>, Seq<char>)> {
        optional("country"@, text_view(self.country))
            + optional("locale"@, text_view(self.locale))
            + optional("timestamp"@, text_view(self.timestamp))
            + optional("limit"@, number_text(self.limit))
            + optional("offset"@, number_text(self.offset))
    }
}

impl Endpoint for FeaturedPlaylistsEndpoint {
    open spec fn describes(&self) -> ApiCallView {
        ApiCallView {
            method: Method::Get,
            path: "/browse/featured-playlists"@,
            query: self.pairs(),
            body: None,
            answer: Answer::Document,
        }
    }

    open spec fn bare(&self) -> bool {
        &&& self.country is None
        &&& self.locale is None
        &&& self.timestamp is None
        &&& self.limit is None
        &&& self.offset is None
    }

    open spec fn optional_keys(&self) -> Seq<Seq<char>> {
        seq!["country"@, "locale"@, "timestamp"@, "limit"@, "offset"@]
    }

    fn call(&self) -> (call: ApiCall) {
        let mut query = Query::new();
        query.optional_text("country", &self.country);
        query.optional_text("locale", &self.locale);
        query.optional_text("timestamp", &self.timestamp);
        query.optional_number("limit", self.limit);
        query.optional_number("offset", self.offset);
        assert(query@ =~= self.pairs());
        ApiCall {
            method: Method::Get,
            path: "/browse/featured-playlists".to_owned(),
            query: query.pairs,
            body: None,
            answer: Answer::Document,
        }
    }

    proof fn lemma_bare_is_silent(&self) {
        assert(pair_keys(self.pairs()) =~= Seq::empty());
    }

    proof fn lemma_path_is_rooted(&self) {
        reveal_strlit("/browse/featured-playlists");
    }
}

impl<'s, F: AuthFlow> Builder<'s, F, FeaturedPlaylistsEndpoint> {
    /// The country whose content is read: an ISO 3166-1 alpha-2 country code.
    pub fn country(self, country: &str) -> (b: Self)
        ensures
            b.spotify == self.spotify,
            b.endpoint == (FeaturedPlaylistsEndpoint {
                country: b.endpoint.country,
                ..self.endpoint
            }),
            b.endpoint.country matches Some(set) && set@ == country@,
    {
        let mut b = self;
        b.endpoint.country = Some(country.to_owned());
        b
    }

    /// The language of the answer: a language code and a country code, joined by an underscore.
    pub fn locale(self, locale: &str) -> (b: Self)
        ensures
            b.spotify == self.spotify,
            b.endpoint == (FeaturedPlaylistsEndpoint {
                locale: b.endpoint.locale,
                ..self.endpoint
            }),
            b.endpoint.locale matches Some(set) && set@ == locale@,
    {
        let mut b = self;
        b.endpoint.locale = Some(locale.to_owned());
        b
    }

    /// The instant whose featured playlists are read; it travels as ISO 8601 in UTC, ending in `Z`.
    pub fn timestamp(self, timestamp: &Timestamp) -> (b: Self)
        ensures
            b.spotify == self.spotify,
            b.endpoint == (FeaturedPlaylistsEndpoint {
                timestamp: b.endpoint.timestamp,
                ..self.endpoint
            }),
            b.endpoint.timestamp matches Some(set) && set@ == iso8601(timestamp@),
    {
        let mut b = self;
        b.endpoint.timestamp = Some(timestamp.to_text());
        b
    }

    /// The most items to return.
    pub fn limit(self, limit: u32) -> (b: Self)
        ensures
            b.spotify == self.spotify,
            b.endpoint == (FeaturedPlaylistsEndpoint { limit: b.endpoint.limit, ..self.endpoint }),
            b.endpoint.limit == Some(limit),
    {
        let mut b = self;
        b.endpoint.limit = Some(limit);
        b
    }

    /// The index of the first item to return.
    pub fn offset(self, offset: u32) -> (b: Self)
        ensures
            b.spotify == self.spotify,
            b.endpoint == (FeaturedPlaylistsEndpoint {
                offset: b.endpoint.offset,
                ..self.endpoint
            }),
            b.endpoint.offset == Some(offset),
    {
        let mut b = self;
        b.endpoint.offset = Some(offset);
        b
    }
}

/// The playlists of a category.
///
/// `GET /browse/categories/{id}/playlists`, answered with a document
#[derive(Clone, Debug, PartialEq, Eq)]
pub struct CategoryPlaylistsEndpoint {
    pub id: String,
    pub country: Option<String>,
    pub limit: Option<u32>,
    pub offset: Option<u32>,
}

impl CategoryPlaylistsEndpoint {
    /// The query that the record makes.
    pub open spec fn pairs(&self) -> Seq<(Seq<char>, Seq<char>)> {
        optional("country"@, text_view(self.country))
            + optional("limit"@, number_text(self.limit))
            + optional("offset"@, number_text(self.offset))
    }
}

impl Endpoint for CategoryPlaylistsEndpoint {
    open spec fn describes(&self) -> ApiCallView {
        ApiCallView {
            method: Method::Get,
            path: "/browse/categories/"@ + self.id@ + "/playlists"@,
            query: self.pairs(),
            body: None,
            answer: Answer::Document,
        }
    }

    open spec fn bare(&self) -> bool {
        self.country is None && self.limit is None && self.offset is None
    }

    open spec fn optional_keys(&self) -> Seq<Seq<char>> {
        seq!["country"@, "limit"@, "offset"@]
    }

    fn call(&self) -> (call: ApiCall) {
        let mut query = Query::new();
        query.optional_text("country", &self.country);
        query.optional_number("limit", self.limit);
        query.optional_number("offset", self.offset);
        assert(query@ =~= self.pairs());
        ApiCall {
            method: Method::Get,
            path: concat3("/browse/categories/", self.id.as_str(), "/playlists"),
            query: query.pairs,
            body: None,
            answer: Answer::Document,
        }
    }

    proof fn lemma_bare_is_silent(&self) {
        assert(pair_keys(self.pairs()) =~= Seq::empty());
    }

    proof fn lemma_path_is_rooted(&self) {
        reveal_strlit("/browse/categories/");
    }
}

impl<'s, F: AuthFlow> Builder<'s, F, CategoryPlaylistsEndpoint> {
    /// The country whose content is read: an ISO 3166-1 alpha-2 country code.
    pub fn country(self, country: &str) -> (b: Self)
        ensures
            b.spotify == self.spotify,
            b.endpoint == (CategoryPlaylistsEndpoint {
                country: b.endpoint.country,
                ..self.endpoint
            }),
            b.endpoint.country matches Some(set) && set@ == country@,
    {
        let mut b = self;
        b.endpoint.country = Some(country.to_owned());
        b
    }

    /// The most items to return.
    pub fn limit(self, limit: u32) -> (b: Self)
        ensures
            b.spotify == self.spotify,
            b.endpoint == (CategoryPlaylistsEndpoint { limit: b.endpoint.limit, ..self.endpoint }),
            b.endpoint.limit == Some(limit),
    {
        let mut b = self;
        b.endpoint.limit = Some(limit);
        b
    }

    /// The index of the first item to return.
    pub fn offset(self, offset: u32) -> (b: Self)
        ensures
            b.spotify == self.spotify,
            b.endpoint == (CategoryPlaylistsEndpoint {
                offset: b.endpoint.offset,
                ..self.endpoint
            }),
            b.endpoint.offset == Some(offset),
    {
        let mut b = self;
        b.endpoint.offset = Some(offset);
        b
    }
}

} // verus!
