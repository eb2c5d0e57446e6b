//! Tracks and recommendations.

use std::marker::PhantomData;
use vstd::prelude::*;

use crate::auth::{text_view, AuthFlow};
use crate::endpoint::{emits, number_text, optional, required, Builder, Endpoint, Query};
use crate::http::{pair_keys, Answer, ApiCall, ApiCallView, Method};
use crate::text::{comma_joined, concat2, concat3, query_list, texts};

verus! {

/// One track.
///
/// `GET /tracks/{id}`, answered with a document
#[derive(Clone, Debug, PartialEq, Eq)]
pub struct TrackEndpoint {
    pub id: String,
    pub market: Option<String>,
}

impl TrackEndpoint {
    /// The query that the record makes.
    pub open spec fn pairs(&self) -> Seq<(Seq<char>, Seq<char>)> {
        optional("market"@, text_view(self.market))
    }
}

impl Endpoint for TrackEndpoint {
    open spec fn describes(&self) -> ApiCallView {
        ApiCallView {
            method: Method::Get,
            path: "/tracks/"@ + self.id@,
            query: self.pairs(),
            body: None,
            answer: Answer::Document,
        }
    }

    open spec fn bare(&self) -> bool {
        self.market is None
    }

    open spec fn optional_keys(&self) -> Seq<Seq<char>> {
        seq!["market"@]
    }

    fn call(&self) -> (call: ApiCall) {
        let mut query = Query::new();
        query.optional_text("market", &self.market);
        assert(query@ =~= self.pairs());
        ApiCall {
            method: Method::Get,
            path: concat2("/tracks/", self.id.as_str()),
            query: query.pairs,
            body: None,
            answer: Answer::Document,
        }
    }

    proof fn lemma_bare_is_silent(&self) {
        assert(pair_keys(self.pairs()) =~= Seq::empty());
    }

    proof fn lemma_path_is_rooted(&self) {
        reveal_strlit("/tracks/");
    }
}

impl<'s, F: AuthFlow> Builder<'s, F, TrackEndpoint> {
    /// The market whose catalogue is read: an ISO 3166-1 alpha-2 country code.
    pub fn market(self, market: &str) -> (b: Self)
        ensures
            b.spotify == self.spotify,
            b.endpoint == (TrackEndpoint { market: b.endpoint.market, ..self.endpoint }),
            b.endpoint.market matches Some(set) && set@ == market@,
    {
        let mut b = self;
        b.endpoint.market = Some(market.to_owned());
        b
    }
}

/// Several tracks.
///
/// `GET /tracks`, answered with a document
#[derive(Clone, Debug, PartialEq, Eq)]
pub struct TracksEndpoint {
    pub ids: String,
    pub market: Option<String>,
}

impl TracksEndpoint {
    /// The query that the record makes.
    pub open spec fn pairs(&self) -> Seq<(Seq<char>, Seq<char>)> {
        required("ids"@, self.ids@)
            + optional("market"@, text_view(self.market))
    }
}

impl Endpoint for TracksEndpoint {
    open spec fn describes(&self) -> ApiCallView {
        ApiCallView {
            method: Method::Get,
            path: "/tracks"@,
            query: self.pairs(),
            body: None,
            answer: Answer::Document,
        }
    }

    open spec fn bare(&self) -> bool {
        self.market is None
    }

    open spec fn optional_keys(&self) -> Seq<Seq<char>> {
        seq!["market"@]
    }

    fn call(&self) -> (call: ApiCall) {
        let mut query = Query::new();
        query.text("ids", self.ids.as_str());
        query.optional_text("market", &self.market);
        assert(query@ =~= self.pairs());
        ApiCall {
            method: Method::Get,
            path: "/tracks".to_owned(),
            query: query.pairs,
            body: None,
            answer: Answer::Document,
        }
    }

    proof fn lemma_bare_is_silent(&self) {
        reveal_strlit("ids");
        reveal_strlit("market");
        assert("market"@.len() != "ids"@.len());
        assert(pair_keys(self.pairs()) =~= seq!["ids"@]);
    }

    proof fn lemma_path_is_rooted(&self) {
        reveal_strlit("/tracks");
    }
}

impl<'s, F: AuthFlow> Builder<'s, F, TracksEndpoint> {
    /// The market whose catalogue is read: an ISO 3166-1 alpha-2 country code.
    pub fn market(self, market: &str) -> (b: Self)
        ensures
            b.spotify == self.spotify,
            b.endpoint == (TracksEndpoint { market: b.endpoint.market, ..self.endpoint }),
            b.endpoint.market matches Some(set) && set@ == market@,
    {
        let mut b = self;
        b.endpoint.market = Some(market.to_owned());
        b
    }
}

/// The tracks in the user's library.
///
/// `GET /me/tracks`, answered with a document
#[derive(Clone, Debug, PartialEq, Eq)]
pub struct SavedTracksEndpoint {
    pub market: Option<String>,
    pub limit: Option<u32>,
    pub offset: Option<u32>,
}

impl SavedTracksEndpoint {
    /// The query that the record makes.
    pub open spec fn pairs(&self) -> Seq<(Seq<char>, Seq<char>)> {
        optional("market"@, text_view(self.market))
            + optional("limit"@, number_text(self.limit))
            + optional("offset"@, number_text(self.offset))
    }
}

impl Endpoint for SavedTracksEndpoint {
    open spec fn describes(&self) -> ApiCallView {
        ApiCallView {
            method: Method::Get,
            path: "/me/tracks"@,
            query: self.pairs(),
            body: None,
            answer: Answer::Document,
        }
    }

    open spec fn bare(&self) -> bool {
        self.market is None && self.limit is None && self.offset is None
    }

    open spec fn optional_keys(&self) -> Seq<Seq<char>> {
        seq!["market"@, "limit"@, "offset"@]
    }

    fn call(&self) -> (call: ApiCall) {
        let mut query = Query::new();
        query.optional_text("market", &self.market);
        query.optional_number("limit", self.limit);
        query.optional_number("offset", self.offset);
        assert(query@ =~= self.pairs());
        ApiCall {
            method: Method::Get,
            path: "/me/tracks".to_owned(),
            query: query.pairs,
            body: None,
            answer: Answer::Document,
        }
    }

    proof fn lemma_bare_is_silent(&self) {
        assert(pair_keys(self.pairs()) =~= Seq::empty());
    }

    proof fn lemma_path_is_rooted(&self) {
        reveal_strlit("/me/tracks");
    }
}

impl<'s, F: AuthFlow> Builder<'s, F, SavedTracksEndpoint> {
    /// The market whose catalogue is read: an ISO 3166-1 alpha-2 country code.
    pub fn market(self, market: &str) -> (b: Self)
        ensures
            b.spotify == self.spotify,
            b.endpoint == (SavedTracksEndpoint { market: b.endpoint.market, ..self.endpoint }),
            b.endpoint.market matches Some(set) && set@ == market@,
    {
        let mut b = self;
        b.endpoint.market = Some(market.to_owned());
        b
    }

    /// The most items to return.
    pub fn limit(self, limit: u32) -> (b: Self)
        ensures
            b.spotify == self.spotify,
            b.endpoint == (SavedTracksEndpoint { limit: b.endpoint.limit, ..self.endpoint }),
            b.endpoint.limit == Some(limit),
    {
        let mut b = self;
        b.endpoint.limit = Some(limit);
        b
    }

    /// The index of the first item to return.
    pub fn offset(self, offset: u32) -> (b: Self)
        ensures
            b.spotify == self.spotify,
            b.endpoint == (SavedTracksEndpoint { offset: b.endpoint.offset, ..self.endpoint }),
            b.endpoint.offset == Some(offset),
    {
        let mut b = self;
        b.endpoint.offset = Some(offset);
        b
    }
}

/// The attributes of a track that recommendations can be tuned by.
#[derive(Clone, Copy, Debug, PartialEq, Eq, Structural)]
pub enum Tunable {
    Acousticness,
    Danceability,
    DurationMs,
    Energy,
    Instrumentalness,
    Key,
    Liveness,
    Loudness,
    Mode,
    Popularity,
    Speechiness,
    Tempo,
    TimeSignature,
    Valence,
}

impl Tunable {
    /// The name on the wire.
    pub open spec fn name(&self) -> Seq<char> {
        match self {
            Tunable::Acousticness => "acousticness"@,
            Tunable::Danceability => "danceability"@,
            Tunable::DurationMs => "duration_ms"@,
            Tunable::Energy => "energy"@,
            Tunable::Instrumentalness => "instrumentalness"@,
            Tunable::Key => "key"@,
            Tunable::Liveness => "liveness"@,
            Tunable::Loudness => "loudness"@,
            Tunable::Mode => "mode"@,
            Tunable::Popularity => "popularity"@,
            Tunable::Speechiness => "speechiness"@,
            Tunable::Tempo => "tempo"@,
            Tunable::TimeSignature => "time_signature"@,
            Tunable::Valence => "valence"@,
        }
    }

    /// The name on the wire.
    pub fn as_str(&self) -> (r: &'static str)
        ensures
            r@ == self.name(),
    {
        match self {
            Tunable::Acousticness => "acousticness",
            Tunable::Danceability => "danceability",
            Tunable::DurationMs => "duration_ms",
            Tunable::Energy => "energy",
            Tunable::Instrumentalness => "instrumentalness",
            Tunable::Key => "key",
            Tunable::Liveness => "liveness",
            Tunable::Loudness => "loudness",
            Tunable::Mode => "mode",
            Tunable::Popularity => "popularity",
            Tunable::Speechiness => "speechiness",
            Tunable::Tempo => "tempo",
            Tunable::TimeSignature => "time_signature",
            Tunable::Valence => "valence",
        }
    }
}

/// How a tunable attribute is held.
#[derive(Clone, Copy, Debug, PartialEq, Eq, Structural)]
pub enum Bound {
    /// No track below the value.
    Min,
    /// No track above the value.
    Max,
    /// Tracks near the value first.
    Target,
}

impl Bound {
    /// The name on the wire.
    pub open spec fn name(&self) -> Seq<char> {
        match self {
            Bound::Min => "min"@,
            Bound::Max => "max"@,
            Bound::Target => "target"@,
        }
    }

    /// The name on the wire.
    pub fn as_str(&self) -> (r: &'static str)
        ensures
            r@ == self.name(),
    {
        match self {
            Bound::Min => "min",
            Bound::Max => "max",
            Bound::Target => "target",
        }
    }
}

/// One tuning of the recommendations: a bound on an attribute. The value is
/// the number as it is to be written.
#[derive(Clone, Debug, PartialEq, Eq)]
pub struct Feature {
    pub bound: Bound,
    pub tunable: Tunable,
    pub value: String,
}

/// The key of a tuning: the bound, an underscore and the attribute.
pub open spec fn feature_key(bound: Bound, tunable: Tunable) -> Seq<char> {
    bound.name() + "_"@ + tunable.name()
}

impl Feature {
    /// The pair that the tuning contributes to the query.
    pub open spec fn pair(&self) -> (Seq<char>, Seq<char>) {
        (feature_key(self.bound, self.tunable), self.value@)
    }
}

/// The pairs of a list of tunings, in order.
pub open spec fn feature_pairs(features: Seq<Feature>) -> Seq<(Seq<char>, Seq<char>)> {
    Seq::new(features.len(), |i: int| features[i].pair())
}

/// The kinds of seed that recommendations grow from.
pub trait SeedType {

}

/// Recommendations from artists.
#[derive(Clone, Copy, Debug, PartialEq, Eq)]
pub struct SeedArtists;

/// Recommendations from genres.
#[derive(Clone, Copy, Debug, PartialEq, Eq)]
pub struct SeedGenres;

/// Recommendations from tracks.
#[derive(Clone, Copy, Debug, PartialEq, Eq)]
pub struct SeedTracks;

impl SeedType for SeedArtists {

}

impl SeedType for SeedGenres {

}

impl SeedType for SeedTracks {

}

/// The seed of a request for recommendations. Its kind shows in its type, so
/// that a builder keeps the kind it was made with.
#[derive(Debug)]
pub enum Seed<'a, S: SeedType> {
    Artists(&'a [&'a str], PhantomData<S>),
    Genres(&'a [&'a str], PhantomData<S>),
    Tracks(&'a [&'a str], PhantomData<S>),
}

impl<'a> Seed<'a, SeedArtists> {
    /// A seed of artist ids.
    pub fn artists(ids: &'a [&'a str]) -> (seed: Self)
        ensures
            seed == Seed::<'a, SeedArtists>::Artists(ids, PhantomData),
    {
        Seed::Artists(ids, PhantomData)
    }
}

impl<'a> Seed<'a, SeedGenres> {
    /// A seed of genre names.
    pub fn genres(genres: &'a [&'a str]) -> (seed: Self)
        ensures
            seed == Seed::<'a, SeedGenres>::Genres(genres, PhantomData),
    {
        Seed::Genres(genres, PhantomData)
    }
}

impl<'a> Seed<'a, SeedTracks> {
    /// A seed of track ids.
    pub fn tracks(ids: &'a [&'a str]) -> (seed: Self)
        ensures
            seed == Seed::<'a, SeedTracks>::Tracks(ids, PhantomData),
    {
        Seed::Tracks(ids, PhantomData)
    }
}

/// Recommendations that grow from one kind of seed.
///
/// `GET /recommendations`, answered with a document
#[derive(Debug, PartialEq, Eq)]
pub struct RecommendationsEndpoint<S: SeedType> {
    pub seed_artists: Option<String>,
    pub seed_genres: Option<String>,
    pub seed_tracks: Option<String>,
    pub limit: Option<u32>,
    pub market: Option<String>,
    pub features: Vec<Feature>,
    pub marker: PhantomData<S>,
}

impl<S: SeedType> RecommendationsEndpoint<S> {
    /// The pairs that the seed makes.
    pub open spec fn seeds(&self) -> Seq<(Seq<char>, Seq<char>)> {
        optional("seed_artists"@, text_view(self.seed_artists))
            + optional("seed_genres"@, text_view(self.seed_genres))
            + optional("seed_tracks"@, text_view(self.seed_tracks))
    }

    /// The query that the record makes: the seed, the options, the tunings.
    pub open spec fn pairs(&self) -> Seq<(Seq<char>, Seq<char>)> {
        self.seeds() + optional("limit"@, number_text(self.limit)) + optional(
            "market"@,
            text_view(self.market),
        ) + feature_pairs(self.features@)
    }
}

/// The bounds, in the order of their declaration.
pub open spec fn bounds() -> Seq<Bound> {
    seq![Bound::Min, Bound::Max, Bound::Target]
}

/// The tunable attributes, in the order of their declaration.
pub open spec fn tunables() -> Seq<Tunable> {
    seq![
        Tunable::Acousticness,
        Tunable::Danceability,
        Tunable::DurationMs,
        Tunable::Energy,
        Tunable::Instrumentalness,
        Tunable::Key,
        Tunable::Liveness,
        Tunable::Loudness,
        Tunable::Mode,
        Tunable::Popularity,
        Tunable::Speechiness,
        Tunable::Tempo,
        Tunable::TimeSignature,
        Tunable::Valence,
    ]
}

/// The keys of all tunings: every bound with every attribute.
pub open spec fn feature_keys() -> Seq<Seq<char>> {
    Seq::new(42, |i: int| feature_key(bounds()[i / 14], tunables()[i % 14]))
}

/// No key of a tuning starts like the key of a seed.
proof fn lemma_feature_key_is_no_seed(bound: Bound, tunable: Tunable)
    ensures
        feature_key(bound, tunable).len() > 0,
        feature_key(bound, tunable)[0] != 's',
{
    reveal_strlit("min");
    reveal_strlit("max");
    reveal_strlit("target");
    assert(bound.name().len() > 0);
    assert(feature_key(bound, tunable)[0] == bound.name()[0]);
}

impl<S: SeedType> Endpoint for RecommendationsEndpoint<S> {
    open spec fn describes(&self) -> ApiCallView {
        ApiCallView {
            method: Method::Get,
            path: "/recommendations"@,
            query: self.pairs(),
            body: None,
            answer: Answer::Document,
        }
    }

    open spec fn bare(&self) -> bool {
        self.limit is None && self.market is None && self.features@.len() == 0
    }

    open spec fn optional_keys(&self) -> Seq<Seq<char>> {
        seq!["limit"@, "market"@] + feature_keys()
    }

    fn call(&self) -> (call: ApiCall) {
        let mut query = Query::new();
        query.optional_text("seed_artists", &self.seed_artists);
        query.optional_text("seed_genres", &self.seed_genres);
        query.optional_text("seed_tracks", &self.seed_tracks);
        query.optional_number("limit", self.limit);
        query.optional_text("market", &self.market);
        let ghost fixed = query@;
        let mut i: usize = 0;
        assert(feature_pairs(self.features@).take(0) =~= Seq::empty());
        while i < self.features.len()
            invariant
                i <= self.features.len(),
                query@ == fixed + feature_pairs(self.features@).take(i as int),
            decreases self.features.len() - i,
        {
            let feature = &self.features[i];
            let key = concat3(feature.bound.as_str(), "_", feature.tunable.as_str());
            query.text(key.as_str(), feature.value.as_str());
            assert(feature_pairs(self.features@).take(i as int + 1) =~= feature_pairs(
                self.features@,
            ).take(i as int).push(feature.pair()));
            assert(query@ =~= fixed + feature_pairs(self.features@).take(i as int + 1));
            i += 1;
        }
        assert(feature_pairs(self.features@).take(i as int) =~= feature_pairs(self.features@));
        assert(query@ =~= self.pairs());
        ApiCall {
            method: Method::Get,
            path: "/recommendations".to_owned(),
            query: query.pairs,
            body: None,
            answer: Answer::Document,
        }
    }

    proof fn lemma_bare_is_silent(&self) {
        reveal_strlit("seed_artists");
        reveal_strlit("seed_genres");
        reveal_strlit("seed_tracks");
        reveal_strlit("limit");
        reveal_strlit("market");
        let keys = pair_keys(self.pairs());
        assert(self.pairs() =~= self.seeds());
        assert forall|j: int| 0 <= j < keys.len() implies (#[trigger] keys[j]).len() > 0
            && keys[j][0] == 's' by {
            assert(keys[j] == self.pairs()[j].0);
        }
        assert forall|i: int| 0 <= i < self.optional_keys().len() implies !emits(
            self.describes(),
            #[trigger] self.optional_keys()[i],
        ) by {
            let key = self.optional_keys()[i];
            if i >= 2 {
                let k = i - 2;
                assert(key == feature_key(bounds()[k / 14], tunables()[k % 14]));
                lemma_feature_key_is_no_seed(bounds()[k / 14], tunables()[k % 14]);
            }
            assert(key.len() > 0 && key[0] != 's');
            if keys.contains(key) {
                let j = choose|j: int| 0 <= j < keys.len() && keys[j] == key;
                assert(keys[j][0] == 's');
            }
        }
    }

    proof fn lemma_path_is_rooted(&self) {
        reveal_strlit("/recommendations");
    }
}

impl<'s, F: AuthFlow, S: SeedType> Builder<'s, F, RecommendationsEndpoint<S>> {
    /// The most tracks to return.
    pub fn limit(self, limit: u32) -> (b: Self)
        ensures
            b.spotify == self.spotify,
            b.endpoint == (RecommendationsEndpoint { limit: b.endpoint.limit, ..self.endpoint }),
            b.endpoint.limit == Some(limit),
    {
        let mut b = self;
        b.endpoint.limit = Some(limit);
        b
    }

    /// The market whose catalogue is read: an ISO 3166-1 alpha-2 country code.
    pub fn market(self, market: &str) -> (b: Self)
        ensures
            b.spotify == self.spotify,
            b.endpoint == (RecommendationsEndpoint { market: b.endpoint.market, ..self.endpoint }),
            b.endpoint.market matches Some(set) && set@ == market@,
    {
        let mut b = self;
        b.endpoint.market = Some(market.to_owned());
        b
    }

    /// Adds a tuning after those that are set. `value` is the number as it
    /// is to be written.
    pub fn feature(self, bound: Bound, tunable: Tunable, value: &str) -> (b: Self)
        ensures
            b.spotify == self.spotify,
            b.endpoint == (RecommendationsEndpoint {
                features: b.endpoint.features,
                ..self.endpoint
            }),
            b.endpoint.features@.len() == self.endpoint.features@.len() + 1,
            b.endpoint.features@.drop_last() == self.endpoint.features@,
            b.endpoint.features@.last().bound == bound,
            b.endpoint.features@.last().tunable == tunable,
            b.endpoint.features@.last().value@ == value@,
    {
        let mut b = self;
        b.endpoint.features.push(Feature { bound, tunable, value: value.to_owned() });
        assert(b.endpoint.features@.drop_last() =~= self.endpoint.features@);
        b
    }
}

impl<'s, F: AuthFlow> Builder<'s, F, RecommendationsEndpoint<SeedArtists>> {
    /// Other artists as the seed.
    pub fn seed_artists(self, ids: &[&str]) -> (b: Self)
        ensures
            b.spotify == self.spotify,
            b.endpoint == (RecommendationsEndpoint {
                seed_artists: b.endpoint.seed_artists,
                ..self.endpoint
            }),
            b.endpoint.seed_artists matches Some(set) && set@ == comma_joined(texts(ids@)),
    {
        let mut b = self;
        b.endpoint.seed_artists = Some(query_list(ids));
        b
    }
}

impl<'s, F: AuthFlow> Builder<'s, F, RecommendationsEndpoint<SeedGenres>> {
    /// Other genres as the seed.
    pub fn seed_genres(self, genres: &[&str]) -> (b: Self)
        ensures
            b.spotify == self.spotify,
            b.endpoint == (RecommendationsEndpoint {
                seed_genres: b.endpoint.seed_genres,
                ..self.endpoint
            }),
            b.endpoint.seed_genres matches Some(set) && set@ == comma_joined(texts(genres@)),
    {
        let mut b = self;
        b.endpoint.seed_genres = Some(query_list(genres));
        b
    }
}

impl<'s, F: AuthFlow> Builder<'s, F, RecommendationsEndpoint<SeedTracks>> {
    /// Other tracks as the seed.
    pub fn seed_tracks(self, ids: &[&str]) -> (b: Self)
        ensures
            b.spotify == self.spotify,
            b.endpoint == (RecommendationsEndpoint {
                seed_tracks: b.endpoint.seed_tracks,
                ..self.endpoint
            }),
            b.endpoint.seed_tracks matches Some(set) && set@ == comma_joined(texts(ids@)),
    {
        let mut b = self;
        b.endpoint.seed_tracks = Some(query_list(ids));
        b
    }
}

} // verus!
