//! Playback.

use vstd::prelude::*;

use crate::auth::{text_view, AuthFlow};
use crate::endpoint::{long_text, number_text, optional, required, Builder, Endpoint, Query};
use crate::http::{pair_keys, Answer, ApiCall, ApiCallView, Body, BodyView, Method};
use crate::json::{
    field, json_flag, json_list, json_number, json_text, keys_of, optional_field, text_array,
    Fields, Json, JsonValue,
};
use crate::text::{boolean, decimal, owned_list, owned_texts, texts};

verus! {

/// What playback repeats.
#[derive(Clone, Copy, Debug, PartialEq, Eq, Structural)]
pub enum RepeatMode {
    /// The track that is playing.
    Track,
    /// The album or playlist that is playing.
    Context,
    /// Nothing.
    Off,
}

impl RepeatMode {
    /// The name on the wire.
    pub open spec fn name(&self) -> Seq<char> {
        match self {
            RepeatMode::Track => "track"@,
            RepeatMode::Context => "context"@,
            RepeatMode::Off => "off"@,
        }
    }

    /// The name on the wire.
    pub fn as_str(&self) -> (r: &'static str)
        ensures
            r@ == self.name(),
    {
        match self {
            RepeatMode::Track => "track",
            RepeatMode::Context => "context",
            RepeatMode::Off => "off",
        }
    }
}

/// Where in a context playback starts.
#[derive(Clone, Debug, PartialEq, Eq)]
pub enum Offset {
    /// At the item with this index, counted from zero.
    Position(u32),
    /// At the item with this URI.
    Uri(String),
}

impl Offset {
    /// The object that stands for the offset: `{ "position": n }` or
    /// `{ "uri": text }`.
    pub open spec fn value(&self) -> JsonValue {
        match self {
            Offset::Position(index) => JsonValue::Object(
                seq![("position"@, JsonValue::Integer(*index as int))],
            ),
            Offset::Uri(uri) => JsonValue::Object(seq![("uri"@, JsonValue::Text(uri@))]),
        }
    }

    /// The object of an optional offset.
    pub open spec fn optional_value(value: Option<Offset>) -> Option<JsonValue> {
        match value {
            Some(chosen) => Some(chosen.value()),
            None => None,
        }
    }

    /// The object that stands for the offset.
    pub fn to_json(&self) -> (j: Json)
        ensures
            j@ == self.value(),
    {
        match self {
            Offset::Position(index) => {
                let number = Json::Integer(*index as i64);
                assert(number@ == JsonValue::Integer(*index as int));
                Json::single("position", number)
            },
            Offset::Uri(uri) => Json::single("uri", Json::text(uri.as_str())),
        }
    }
}

/// Puts a track or an episode at the end of the queue.
///
/// `POST /me/player/queue`, answered with no content
#[derive(Clone, Debug, PartialEq, Eq)]
pub struct AddItemToQueueEndpoint {
    pub uri: String,
    pub device_id: Option<String>,
}

impl AddItemToQueueEndpoint {
    /// The query that the record makes.
    pub open spec fn pairs(&self) -> Seq<(Seq<char>, Seq<char>)> {
        required("uri"@, self.uri@)
            + optional("device_id"@, text_view(self.device_id))
    }
}

impl Endpoint for AddItemToQueueEndpoint {
    open spec fn describes(&self) -> ApiCallView {
        ApiCallView {
            method: Method::Post,
            path: "/me/player/queue"@,
            query: self.pairs(),
            body: None,
            answer: Answer::Nothing,
        }
    }

    open spec fn bare(&self) -> bool {
        self.device_id is None
    }

    open spec fn optional_keys(&self) -> Seq<Seq<char>> {
        seq!["device_id"@]
    }

    fn call(&self) -> (call: ApiCall) {
        let mut query = Query::new();
        query.text("uri", self.uri.as_str());
        query.optional_text("device_id", &self.device_id);
        assert(query@ =~= self.pairs());
        ApiCall {
            method: Method::Post,
            path: "/me/player/queue".to_owned(),
            query: query.pairs,
            body: None,
            answer: Answer::Nothing,
        }
    }

    proof fn lemma_bare_is_silent(&self) {
        reveal_strlit("uri");
        reveal_strlit("device_id");
        assert("device_id"@.len() != "uri"@.len());
        assert(pair_keys(self.pairs()) =~= seq!["uri"@]);
    }

    proof fn lemma_path_is_rooted(&self) {
        reveal_strlit("/me/player/queue");
    }
}

impl<'s, F: AuthFlow> Builder<'s, F, AddItemToQueueEndpoint> {
    /// The device that the command is meant for; the active one where absent.
    pub fn device_id(self, device_id: &str) -> (b: Self)
        ensures
            b.spotify == self.spotify,
            b.endpoint == (AddItemToQueueEndpoint {
                device_id: b.endpoint.device_id,
                ..self.endpoint
            }),
            b.endpoint.device_id matches Some(set) && set@ == device_id@,
    {
        let mut b = self;
        b.endpoint.device_id = Some(device_id.to_owned());
        b
    }
}

/// The tracks that the user played of late.
///
/// `GET /me/player/recently-played`, answered with a document
#[derive(Clone, Debug, PartialEq, Eq)]
pub struct RecentlyPlayedTracksEndpoint {
    pub limit: Option<u32>,
    pub after: Option<u64>,
    pub before: Option<u64>,
}

impl RecentlyPlayedTracksEndpoint {
    /// The query that the record makes.
    pub open spec fn pairs(&self) -> Seq<(Seq<char>, Seq<char>)> {
        optional("limit"@, number_text(self.limit))
            + optional("after"@, long_text(self.after))
            + optional("before"@, long_text(self.before))
    }
}

impl Endpoint for RecentlyPlayedTracksEndpoint {
    open spec fn describes(&self) -> ApiCallView {
        ApiCallView {
            method: Method::Get,
            path: "/me/player/recently-played"@,
            query: self.pairs(),
            body: None,
            answer: Answer::Document,
        }
    }

    open spec fn bare(&self) -> bool {
        self.limit is None && self.after is None && self.before is None
    }

    open spec fn optional_keys(&self) -> Seq<Seq<char>> {
        seq!["limit"@, "after"@, "before"@]
    }

    fn call(&self) -> (call: ApiCall) {
        let mut query = Query::new();
        query.optional_number("limit", self.limit);
        query.optional_long("after", self.after);
        query.optional_long("before", self.before);
        assert(query@ =~= self.pairs());
        ApiCall {
            method: Method::Get,
            path: "/me/player/recently-played".to_owned(),
            query: query.pairs,
            body: None,
            answer: Answer::Document,
        }
    }

    proof fn lemma_bare_is_silent(&self) {
        assert(pair_keys(self.pairs()) =~= Seq::empty());
    }

    proof fn lemma_path_is_rooted(&self) {
        reveal_strlit("/me/player/recently-played");
    }
}

impl<'s, F: AuthFlow> Builder<'s, F, RecentlyPlayedTracksEndpoint> {
    /// The most items to return.
    pub fn limit(self, limit: u32) -> (b: Self)
        ensures
            b.spotify == self.spotify,
            b.endpoint == (RecentlyPlayedTracksEndpoint {
                limit: b.endpoint.limit,
                ..self.endpoint
            }),
            b.endpoint.limit == Some(limit),
    {
        let mut b = self;
        b.endpoint.limit = Some(limit);
        b
    }

    /// Only what was played after this instant, in milliseconds since the epoch.
    pub fn after(self, after: u64) -> (b: Self)
        ensures
            b.spotify == self.spotify,
            b.endpoint == (RecentlyPlayedTracksEndpoint {
                after: b.endpoint.after,
                ..self.endpoint
            }),
            b.endpoint.after == Some(after),
    {
        let mut b = self;
        b.endpoint.after = Some(after);
        b
    }

    /// Only what was played before this instant, in milliseconds since the epoch.
    pub fn before(self, before: u64) -> (b: Self)
        ensures
            b.spotify == self.spotify,
            b.endpoint == (RecentlyPlayedTracksEndpoint {
                before: b.endpoint.before,
                ..self.endpoint
            }),
            b.endpoint.before == Some(before),
    {
        let mut b = self;
        b.endpoint.before = Some(before);
        b
    }
}

/// Moves to a position in what is playing.
///
/// `PUT /me/player/seek`, answered with no content
#[derive(Clone, Debug, PartialEq, Eq)]
pub struct SeekToPositionEndpoint {
    pub position_ms: u32,
    pub device_id: Option<String>,
}

impl SeekToPositionEndpoint {
    /// The query that the record makes.
    pub open spec fn pairs(&self) -> Seq<(Seq<char>, Seq<char>)> {
        required("position_ms"@, decimal(self.position_ms as nat))
            + optional("device_id"@, text_view(self.device_id))
    }
}

impl Endpoint for SeekToPositionEndpoint {
    open spec fn describes(&self) -> ApiCallView {
        ApiCallView {
            method: Method::Put,
            path: "/me/player/seek"@,
            query: self.pairs(),
            body: None,
            answer: Answer::Nothing,
        }
    }

    open spec fn bare(&self) -> bool {
        self.device_id is None
    }

    open spec fn optional_keys(&self) -> Seq<Seq<char>> {
        seq!["device_id"@]
    }

    fn call(&self) -> (call: ApiCall) {
        let mut query = Query::new();
        query.number("position_ms", self.position_ms);
        query.optional_text("device_id", &self.device_id);
        assert(query@ =~= self.pairs());
        ApiCall {
            method: Method::Put,
            path: "/me/player/seek".to_owned(),
            query: query.pairs,
            body: None,
            answer: Answer::Nothing,
        }
    }

    proof fn lemma_bare_is_silent(&self) {
        reveal_strlit("position_ms");
        reveal_strlit("device_id");
        assert("device_id"@.len() != "position_ms"@.len());
        assert(pair_keys(self.pairs()) =~= seq!["position_ms"@]);
    }

    proof fn lemma_path_is_rooted(&self) {
        reveal_strlit("/me/player/seek");
    }
}

impl<'s, F: AuthFlow> Builder<'s, F, SeekToPositionEndpoint> {
    /// The device that the command is meant for; the active one where absent.
    pub fn device_id(self, device_id: &str) -> (b: Self)
        ensures
            b.spotify == self.spotify,
            b.endpoint == (SeekToPositionEndpoint {
                device_id: b.endpoint.device_id,
                ..self.endpoint
            }),
            b.endpoint.device_id matches Some(set) && set@ == device_id@,
    {
        let mut b = self;
        b.endpoint.device_id = Some(device_id.to_owned());
        b
    }
}

/// Sets what is repeated.
///
/// `PUT /me/player/repeat`, answered with no content
#[derive(Clone, Debug, PartialEq, Eq)]
pub struct SetRepeatModeEndpoint {
    pub state: RepeatMode,
    pub device_id: Option<String>,
}

impl SetRepeatModeEndpoint {
    /// The query that the record makes.
    pub open spec fn pairs(&self) -> Seq<(Seq<char>, Seq<char>)> {
        required("state"@, self.state.name())
            + optional("device_id"@, text_view(self.device_id))
    }
}

impl Endpoint for SetRepeatModeEndpoint {
    open spec fn describes(&self) -> ApiCallView {
        ApiCallView {
            method: Method::Put,
            path: "/me/player/repeat"@,
            query: self.pairs(),
            body: None,
            answer: Answer::Nothing,
        }
    }

    open spec fn bare(&self) -> bool {
        self.device_id is None
    }

    open spec fn optional_keys(&self) -> Seq<Seq<char>> {
        seq!["device_id"@]
    }

    fn call(&self) -> (call: ApiCall) {
        let mut query = Query::new();
        query.text("state", self.state.as_str());
        query.optional_text("device_id", &self.device_id);
        assert(query@ =~= self.pairs());
        ApiCall {
            method: Method::Put,
            path: "/me/player/repeat".to_owned(),
            query: query.pairs,
            body: None,
            answer: Answer::Nothing,
        }
    }

    proof fn lemma_bare_is_silent(&self) {
        reveal_strlit("state");
        reveal_strlit("device_id");
        assert("device_id"@.len() != "state"@.len());
        assert(pair_keys(self.pairs()) =~= seq!["state"@]);
    }

    proof fn lemma_path_is_rooted(&self) {
        reveal_strlit("/me/player/repeat");
    }
}

impl<'s, F: AuthFlow> Builder<'s, F, SetRepeatModeEndpoint> {
    /// The device that the command is meant for; the active one where absent.
    pub fn device_id(self, device_id: &str) -> (b: Self)
        ensures
            b.spotify == self.spotify,
            b.endpoint == (SetRepeatModeEndpoint {
                device_id: b.endpoint.device_id,
                ..self.endpoint
            }),
            b.endpoint.device_id matches Some(set) && set@ == device_id@,
    {
        let mut b = self;
        b.endpoint.device_id = Some(device_id.to_owned());
        b
    }
}

/// Sets the volume, in percent.
///
/// `PUT /me/player/volume`, answered with no content
#[derive(Clone, Debug, PartialEq, Eq)]
pub struct SetPlaybackVolumeEndpoint {
    pub volume_percent: u32,
    pub device_id: Option<String>,
}

impl SetPlaybackVolumeEndpoint {
    /// The query that the record makes.
    pub open spec fn pairs(&self) -> Seq<(Seq<char>, Seq<char>)> {
        required("volume_percent"@, decimal(self.volume_percent as nat))
            + optional("device_id"@, text_view(self.device_id))
    }
}

impl Endpoint for SetPlaybackVolumeEndpoint {
    open spec fn describes(&self) -> ApiCallView {
        ApiCallView {
            method: Method::Put,
            path: "/me/player/volume"@,
            query: self.pairs(),
            body: None,
            answer: Answer::Nothing,
        }
    }

    open spec fn bare(&self) -> bool {
        self.device_id is None
    }

    open spec fn optional_keys(&self) -> Seq<Seq<char>> {
        seq!["device_id"@]
    }

    fn call(&self) -> (call: ApiCall) {
        let mut query = Query::new();
        query.number("volume_percent", self.volume_percent);
        query.optional_text("device_id", &self.device_id);
        assert(query@ =~= self.pairs());
        ApiCall {
            method: Method::Put,
            path: "/me/player/volume".to_owned(),
            query: query.pairs,
            body: None,
            answer: Answer::Nothing,
        }
    }

    proof fn lemma_bare_is_silent(&self) {
        reveal_strlit("volume_percent");
        reveal_strlit("device_id");
        assert("device_id"@.len() != "volume_percent"@.len());
        assert(pair_keys(self.pairs()) =~= seq!["volume_percent"@]);
    }

    proof fn lemma_path_is_rooted(&self) {
        reveal_strlit("/me/player/volume");
    }
}

impl<'s, F: AuthFlow> Builder<'s, F, SetPlaybackVolumeEndpoint> {
    /// The device that the command is meant for; the active one where absent.
    pub fn device_id(self, device_id: &str) -> (b: Self)
        ensures
            b.spotify == self.spotify,
            b.endpoint == (SetPlaybackVolumeEndpoint {
                device_id: b.endpoint.device_id,
                ..self.endpoint
            }),
            b.endpoint.device_id matches Some(set) && set@ == device_id@,
    {
        let mut b = self;
        b.endpoint.device_id = Some(device_id.to_owned());
        b
    }
}

/// Turns shuffle on or off.
///
/// `PUT /me/player/shuffle`, answered with no content
#[derive(Clone, Debug, PartialEq, Eq)]
pub struct ToggleShuffleEndpoint {
    pub state: bool,
    pub device_id: Option<String>,
}

impl ToggleShuffleEndpoint {
    /// The query that the record makes.
    pub open spec fn pairs(&self) -> Seq<(Seq<char>, Seq<char>)> {
        required("state"@, boolean(self.state))
            + optional("device_id"@, text_view(self.device_id))
    }
}

impl Endpoint for ToggleShuffleEndpoint {
    open spec fn describes(&self) -> ApiCallView {
        ApiCallView {
            method: Method::Put,
            path: "/me/player/shuffle"@,
            query: self.pairs(),
            body: None,
            answer: Answer::Nothing,
        }
    }

    open spec fn bare(&self) -> bool {
        self.device_id is None
    }

    open spec fn optional_keys(&self) -> Seq<Seq<char>> {
        seq!["device_id"@]
    }

    fn call(&self) -> (call: ApiCall) {
        let mut query = Query::new();
        query.flag("state", self.state);
        query.optional_text("device_id", &self.device_id);
        assert(query@ =~= self.pairs());
        ApiCall {
            method: Method::Put,
            path: "/me/player/shuffle".to_owned(),
            query: query.pairs,
            body: None,
            answer: Answer::Nothing,
        }
    }

    proof fn lemma_bare_is_silent(&self) {
        reveal_strlit("state");
        reveal_strlit("device_id");
        assert("device_id"@.len() != "state"@.len());
        assert(pair_keys(self.pairs()) =~= seq!["state"@]);
    }

    proof fn lemma_path_is_rooted(&self) {
        reveal_strlit("/me/player/shuffle");
    }
}

impl<'s, F: AuthFlow> Builder<'s, F, ToggleShuffleEndpoint> {
    /// The device that the command is meant for; the active one where absent.
    pub fn device_id(self, device_id: &str) -> (b: Self)
        ensures
            b.spotify == self.spotify,
            b.endpoint == (ToggleShuffleEndpoint {
                device_id: b.endpoint.device_id,
                ..self.endpoint
            }),
            b.endpoint.device_id matches Some(set) && set@ == device_id@,
    {
        let mut b = self;
        b.endpoint.device_id = Some(device_id.to_owned());
        b
    }
}

/// Starts or resumes playback.
///
/// `PUT /me/player/play`, answered with no content
#[derive(Clone, Debug, PartialEq, Eq)]
pub struct StartPlaybackEndpoint {
    pub device_id: Option<String>,
    pub context_uri: Option<String>,
    pub uris: Option<Vec<String>>,
    pub offset: Option<Offset>,
    pub position_ms: Option<u32>,
}

impl StartPlaybackEndpoint {
    /// The query that the record makes.
    pub open spec fn pairs(&self) -> Seq<(Seq<char>, Seq<char>)> {
        optional("device_id"@, text_view(self.device_id))
    }

    /// The members of the body that the record makes.
    pub open spec fn members(&self) -> Seq<(Seq<char>, JsonValue)> {
        optional_field("context_uri"@, json_text(text_view(self.context_uri)))
            + optional_field("uris"@, json_list(self.uris))
            + optional_field("offset"@, Offset::optional_value(self.offset))
            + optional_field("position_ms"@, json_number(self.position_ms))
    }
}

impl Endpoint for StartPlaybackEndpoint {
    open spec fn describes(&self) -> ApiCallView {
        ApiCallView {
            method: Method::Put,
            path: "/me/player/play"@,
            query: self.pairs(),
            body: Some(BodyView::Json(JsonValue::Object(self.members()))),
            answer: Answer::Nothing,
        }
    }

    open spec fn bare(&self) -> bool {
        &&& self.device_id is None
        &&& self.context_uri is None
        &&& self.uris is None
        &&& self.offset is None
        &&& self.position_ms is None
    }

    open spec fn optional_keys(&self) -> Seq<Seq<char>> {
        seq!["device_id"@, "context_uri"@, "uris"@, "offset"@, "position_ms"@]
    }

    fn call(&self) -> (call: ApiCall) {
        let mut query = Query::new();
        query.optional_text("device_id", &self.device_id);
        assert(query@ =~= self.pairs());
        let mut members = Fields::new();
        members.optional_text("context_uri", &self.context_uri);
        members.optional_list("uris", &self.uris);
        let offset = match &self.offset {
            Some(chosen) => Some(chosen.to_json()),
            None => None,
        };
        members.optional_value("offset", offset);
        members.optional_number("position_ms", self.position_ms);
        assert(members@ =~= self.members());
        ApiCall {
            method: Method::Put,
            path: "/me/player/play".to_owned(),
            query: query.pairs,
            body: Some(Body::Json(members.into_object())),
            answer: Answer::Nothing,
        }
    }

    proof fn lemma_bare_is_silent(&self) {
        assert(pair_keys(self.pairs()) =~= Seq::empty());
        assert(keys_of(self.members()) =~= Seq::empty());
    }

    proof fn lemma_path_is_rooted(&self) {
        reveal_strlit("/me/player/play");
    }
}

impl<'s, F: AuthFlow> Builder<'s, F, StartPlaybackEndpoint> {
    /// The device that the command is meant for; the active one where absent.
    pub fn device_id(self, device_id: &str) -> (b: Self)
        ensures
            b.spotify == self.spotify,
            b.endpoint == (StartPlaybackEndpoint {
                device_id: b.endpoint.device_id,
                ..self.endpoint
            }),
            b.endpoint.device_id matches Some(set) && set@ == device_id@,
    {
        let mut b = self;
        b.endpoint.device_id = Some(device_id.to_owned());
        b
    }

    /// The album, artist or playlist to play.
    pub fn context_uri(self, context_uri: &str) -> (b: Self)
        ensures
            b.spotify == self.spotify,
            b.endpoint == (StartPlaybackEndpoint {
                context_uri: b.endpoint.context_uri,
                ..self.endpoint
            }),
            b.endpoint.context_uri matches Some(set) && set@ == context_uri@,
    {
        let mut b = self;
        b.endpoint.context_uri = Some(context_uri.to_owned());
        b
    }

    /// The tracks to play.
    pub fn uris(self, uris: &[&str]) -> (b: Self)
        ensures
            b.spotify == self.spotify,
            b.endpoint == (StartPlaybackEndpoint { uris: b.endpoint.uris, ..self.endpoint }),
            b.endpoint.uris matches Some(set) && owned_texts(set@) == texts(uris@),
    {
        let mut b = self;
        b.endpoint.uris = Some(owned_list(uris));
        b
    }

    /// Where in the context playback starts.
    pub fn offset(self, offset: Offset) -> (b: Self)
        ensures
            b.spotify == self.spotify,
            b.endpoint == (StartPlaybackEndpoint { offset: b.endpoint.offset, ..self.endpoint }),
            b.endpoint.offset == Some(offset),
    {
        let mut b = self;
        b.endpoint.offset = Some(offset);
        b
    }

    /// The position to start at, in milliseconds.
    pub fn position_ms(self, position_ms: u32) -> (b: Self)
        ensures
            b.spotify == self.spotify,
            b.endpoint == (StartPlaybackEndpoint {
                position_ms: b.endpoint.position_ms,
                ..self.endpoint
            }),
            b.endpoint.position_ms == Some(position_ms),
    {
        let mut b = self;
        b.endpoint.position_ms = Some(position_ms);
        b
    }
}

/// Moves playback to another device.
///
/// `PUT /me/player`, answered with no content
#[derive(Clone, Debug, PartialEq, Eq)]
pub struct TransferPlaybackEndpoint {
    pub device_ids: Vec<String>,
    pub play: Option<bool>,
}

impl TransferPlaybackEndpoint {
    /// The members of the body that the record makes.
    pub open spec fn members(&self) -> Seq<(Seq<char>, JsonValue)> {
        field("device_ids"@, text_array(owned_texts(self.device_ids@)))
            + optional_field("play"@, json_flag(self.play))
    }
}

impl Endpoint for TransferPlaybackEndpoint {
    open spec fn describes(&self) -> ApiCallView {
        ApiCallView {
            method: Method::Put,
            path: "/me/player"@,
            query: Seq::empty(),
            body: Some(BodyView::Json(JsonValue::Object(self.members()))),
            answer: Answer::Nothing,
        }
    }

    open spec fn bare(&self) -> bool {
        self.play is None
    }

    open spec fn optional_keys(&self) -> Seq<Seq<char>> {
        seq!["play"@]
    }

    fn call(&self) -> (call: ApiCall) {
        let query = Query::new();
        let mut members = Fields::new();
        members.list("device_ids", &self.device_ids);
        members.optional_flag("play", self.play);
        assert(members@ =~= self.members());
        ApiCall {
            method: Method::Put,
            path: "/me/player".to_owned(),
            query: query.pairs,
            body: Some(Body::Json(members.into_object())),
            answer: Answer::Nothing,
        }
    }

    proof fn lemma_bare_is_silent(&self) {
        reveal_strlit("device_ids");
        reveal_strlit("play");
        assert("play"@.len() != "device_ids"@.len());
        assert(keys_of(self.members()) =~= seq!["device_ids"@]);
    }

    proof fn lemma_path_is_rooted(&self) {
        reveal_strlit("/me/player");
    }
}

impl<'s, F: AuthFlow> Builder<'s, F, TransferPlaybackEndpoint> {
    /// Whether playback goes on at once on the new device.
    pub fn play(self, play: bool) -> (b: Self)
        ensures
            b.spotify == self.spotify,
            b.endpoint == (TransferPlaybackEndpoint { play: b.endpoint.play, ..self.endpoint }),
            b.endpoint.play == Some(play),
    {
        let mut b = self;
        b.endpoint.play = Some(play);
        b
    }
}

} // verus!
