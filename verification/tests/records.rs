use spotify_client::endpoint::album::{AlbumEndpoint, AlbumTracksEndpoint, AlbumsEndpoint, NewReleasesEndpoint, SavedAlbumsEndpoint};
use spotify_client::endpoint::artist::{ArtistEndpoint};
use spotify_client::endpoint::audiobook::{AudiobookChaptersEndpoint, AudiobookEndpoint, AudiobooksEndpoint, ChapterEndpoint, ChaptersEndpoint, SavedAudiobooksEndpoint};
use spotify_client::endpoint::category::{BrowseCategoriesEndpoint, BrowseCategoryEndpoint};
use spotify_client::endpoint::player::{AddItemToQueueEndpoint, Offset, RecentlyPlayedTracksEndpoint, RepeatMode, SeekToPositionEndpoint, SetPlaybackVolumeEndpoint, SetRepeatModeEndpoint, StartPlaybackEndpoint, ToggleShuffleEndpoint, TransferPlaybackEndpoint};
use spotify_client::endpoint::playlist::{AddPlaylistItemsEndpoint, CategoryPlaylistsEndpoint, ChangePlaylistDetailsEndpoint, CreatePlaylistEndpoint, CurrentUserPlaylistsEndpoint, FeaturedPlaylistsEndpoint, PlaylistEndpoint, PlaylistItemsEndpoint, RemovePlaylistItemsEndpoint, UpdatePlaylistItemsEndpoint, UserPlaylistsEndpoint};
use spotify_client::endpoint::search::{SearchEndpoint};
use spotify_client::endpoint::show::{EpisodeEndpoint, EpisodesEndpoint, SavedEpisodesEndpoint, SavedShowsEndpoint, ShowEndpoint, ShowEpisodesEndpoint, ShowsEndpoint};
use spotify_client::endpoint::track::{SavedTracksEndpoint, TrackEndpoint, TracksEndpoint};
use spotify_client::endpoint::user::{FollowPlaylistBuilder, FollowUserOrArtistEndpoint, FollowedArtistsBuilder, TimeRange, UserItemType, UserTopItemsEndpoint};
use spotify_client::endpoint::Endpoint;
use spotify_client::http::{Answer, ApiCall, Body, Method};
use spotify_client::json::Json;

fn pair(key: &str, value: &str) -> (String, String) {
    (key.to_string(), value.to_string())
}

fn emits(call: &ApiCall, key: &str) -> bool {
    let in_query = call.query.iter().any(|(k, _)| k == key);
    let in_body = match &call.body {
        Some(Body::Json(Json::Object(fields))) => fields.iter().any(|(k, _)| k == key),
        _ => false,
    };
    in_query || in_body
}

#[test]
fn record_album_endpoint_with_every_option() {
    let record = AlbumEndpoint { id: "id-1".to_string(), market: Some("US".to_string()) };
    let expected = ApiCall {
        method: Method::Get,
        path: "/albums/id-1".to_string(),
        query: vec![pair("market", "US")],
        body: None,
        answer: Answer::Document,
    };
    assert_eq!(record.call(), expected);
}

#[test]
fn record_album_endpoint_without_options_sends_no_optional_key() {
    let record = AlbumEndpoint { id: "id-1".to_string(), market: None };
    let expected = ApiCall {
        method: Method::Get,
        path: "/albums/id-1".to_string(),
        query: vec![],
        body: None,
        answer: Answer::Document,
    };
    let call = record.call();
    assert_eq!(call, expected);
    for key in ["market"] {
        assert!(!emits(&call, key), "{}", key);
    }
}

#[test]
fn record_albums_endpoint_with_every_option() {
    let record = AlbumsEndpoint { ids: "a,b".to_string(), market: Some("US".to_string()) };
    let expected = ApiCall {
        method: Method::Get,
        path: "/albums".to_string(),
        query: vec![pair("ids", "a,b"), pair("market", "US")],
        body: None,
        answer: Answer::Document,
    };
    assert_eq!(record.call(), expected);
}

#[test]
fn record_albums_endpoint_without_options_sends_no_optional_key() {
    let record = AlbumsEndpoint { ids: "a,b".to_string(), market: None };
    let expected = ApiCall {
        method: Method::Get,
        path: "/albums".to_string(),
        query: vec![pair("ids", "a,b")],
        body: None,
        answer: Answer::Document,
    };
    let call = record.call();
    assert_eq!(call, expected);
    for key in ["market"] {
        assert!(!emits(&call, key), "{}", key);
    }
}

#[test]
fn record_album_tracks_endpoint_with_every_option() {
    let record = AlbumTracksEndpoint { id: "id-1".to_string(), market: Some("US".to_string()), limit: Some(20), offset: Some(5) };
    let expected = ApiCall {
        method: Method::Get,
        path: "/albums/id-1/tracks".to_string(),
        query: vec![pair("market", "US"), pair("limit", "20"), pair("offset", "5")],
        body: None,
        answer: Answer::Document,
    };
    assert_eq!(record.call(), expected);
}

#[test]
fn record_album_tracks_endpoint_without_options_sends_no_optional_key() {
    let record = AlbumTracksEndpoint { id: "id-1".to_string(), market: None, limit: None, offset: None };
    let expected = ApiCall {
        method: Method::Get,
        path: "/albums/id-1/tracks".to_string(),
        query: vec![],
        body: None,
        answer: Answer::Document,
    };
    let call = record.call();
    assert_eq!(call, expected);
    for key in ["market", "limit", "offset"] {
        assert!(!emits(&call, key), "{}", key);
    }
}

#[test]
fn record_new_releases_endpoint_with_every_option() {
    let record = NewReleasesEndpoint { country: Some("SE".to_string()), limit: Some(20), offset: Some(5) };
    let expected = ApiCall {
        method: Method::Get,
        path: "/browse/new-releases".to_string(),
        query: vec![pair("country", "SE"), pair("limit", "20"), pair("offset", "5")],
        body: None,
        answer: Answer::Document,
    };
    assert_eq!(record.call(), expected);
}

#[test]
fn record_new_releases_endpoint_without_options_sends_no_optional_key() {
    let record = NewReleasesEndpoint { country: None, limit: None, offset: None };
    let expected = ApiCall {
        method: Method::Get,
        path: "/browse/new-releases".to_string(),
        query: vec![],
        body: None,
        answer: Answer::Document,
    };
    let call = record.call();
    assert_eq!(call, expected);
    for key in ["country", "limit", "offset"] {
        assert!(!emits(&call, key), "{}", key);
    }
}

#[test]
fn record_saved_albums_endpoint_with_every_option() {
    let record = SavedAlbumsEndpoint { limit: Some(20), offset: Some(5), market: Some("US".to_string()) };
    let expected = ApiCall {
        method: Method::Get,
        path: "/me/albums".to_string(),
        query: vec![pair("limit", "20"), pair("offset", "5"), pair("market", "US")],
        body: None,
        answer: Answer::Document,
    };
    assert_eq!(record.call(), expected);
}

#[test]
fn record_saved_albums_endpoint_without_options_sends_no_optional_key() {
    let record = SavedAlbumsEndpoint { limit: None, offset: None, market: None };
    let expected = ApiCall {
        method: Method::Get,
        path: "/me/albums".to_string(),
        query: vec![],
        body: None,
        answer: Answer::Document,
    };
    let call = record.call();
    assert_eq!(call, expected);
    for key in ["limit", "offset", "market"] {
        assert!(!emits(&call, key), "{}", key);
    }
}

#[test]
fn record_artist_endpoint_with_every_option() {
    let record = ArtistEndpoint { id: "id-1".to_string() };
    let expected = ApiCall {
        method: Method::Get,
        path: "/artists/id-1".to_string(),
        query: vec![],
        body: None,
        answer: Answer::Document,
    };
    assert_eq!(record.call(), expected);
}

#[test]
fn record_audiobook_endpoint_with_every_option() {
    let record = AudiobookEndpoint { id: "id-1".to_string(), market: Some("US".to_string()) };
    let expected = ApiCall {
        method: Method::Get,
        path: "/audiobooks/id-1".to_string(),
        query: vec![pair("market", "US")],
        body: None,
        answer: Answer::Document,
    };
    assert_eq!(record.call(), expected);
}

#[test]
fn record_audiobook_endpoint_without_options_sends_no_optional_key() {
    let record = AudiobookEndpoint { id: "id-1".to_string(), market: None };
    let expected = ApiCall {
        method: Method::Get,
        path: "/audiobooks/id-1".to_string(),
        query: vec![],
        body: None,
        answer: Answer::Document,
    };
    let call = record.call();
    assert_eq!(call, expected);
    for key in ["market"] {
        assert!(!emits(&call, key), "{}", key);
    }
}

#[test]
fn record_audiobooks_endpoint_with_every_option() {
    let record = AudiobooksEndpoint { ids: "a,b".to_string(), market: Some("US".to_string()) };
    let expected = ApiCall {
        method: Method::Get,
        path: "/audiobooks".to_string(),
        query: vec![pair("ids", "a,b"), pair("market", "US")],
        body: None,
        answer: Answer::Document,
    };
    assert_eq!(record.call(), expected);
}

#[test]
fn record_audiobooks_endpoint_without_options_sends_no_optional_key() {
    let record = AudiobooksEndpoint { ids: "a,b".to_string(), market: None };
    let expected = ApiCall {
        method: Method::Get,
        path: "/audiobooks".to_string(),
        query: vec![pair("ids", "a,b")],
        body: None,
        answer: Answer::Document,
    };
    let call = record.call();
    assert_eq!(call, expected);
    for key in ["market"] {
        assert!(!emits(&call, key), "{}", key);
    }
}

#[test]
fn record_audiobook_chapters_endpoint_with_every_option() {
    let record = AudiobookChaptersEndpoint { id: "id-1".to_string(), market: Some("US".to_string()), limit: Some(20), offset: Some(5) };
    let expected = ApiCall {
        method: Method::Get,
        path: "/audiobooks/id-1/chapters".to_string(),
        query: vec![pair("market", "US"), pair("limit", "20"), pair("offset", "5")],
        body: None,
        answer: Answer::Document,
    };
    assert_eq!(record.call(), expected);
}

#[test]
fn record_audiobook_chapters_endpoint_without_options_sends_no_optional_key() {
    let record = AudiobookChaptersEndpoint { id: "id-1".to_string(), market: None, limit: None, offset: None };
    let expected = ApiCall {
        method: Method::Get,
        path: "/audiobooks/id-1/chapters".to_string(),
        query: vec![],
        body: None,
        answer: Answer::Document,
    };
    let call = record.call();
    assert_eq!(call, expected);
    for key in ["market", "limit", "offset"] {
        assert!(!emits(&call, key), "{}", key);
    }
}

#[test]
fn record_chapter_endpoint_with_every_option() {
    let record = ChapterEndpoint { id: "id-1".to_string(), market: Some("US".to_string()) };
    let expected = ApiCall {
        method: Method::Get,
        path: "/chapters/id-1".to_string(),
        query: vec![pair("market", "US")],
        body: None,
        answer: Answer::Document,
    };
    assert_eq!(record.call(), expected);
}

#[test]
fn record_chapter_endpoint_without_options_sends_no_optional_key() {
    let record = ChapterEndpoint { id: "id-1".to_string(), market: None };
    let expected = ApiCall {
        method: Method::Get,
        path: "/chapters/id-1".to_string(),
        query: vec![],
        body: None,
        answer: Answer::Document,
    };
    let call = record.call();
    assert_eq!(call, expected);
    for key in ["market"] {
        assert!(!emits(&call, key), "{}", key);
    }
}

#[test]
fn record_chapters_endpoint_with_every_option() {
    let record = ChaptersEndpoint { ids: "a,b".to_string(), market: Some("US".to_string()) };
    let expected = ApiCall {
        method: Method::Get,
        path: "/chapters".to_string(),
        query: vec![pair("ids", "a,b"), pair("market", "US")],
        body: None,
        answer: Answer::Document,
    };
    assert_eq!(record.call(), expected);
}

#[test]
fn record_chapters_endpoint_without_options_sends_no_optional_key() {
    let record = ChaptersEndpoint { ids: "a,b".to_string(), market: None };
    let expected = ApiCall {
        method: Method::Get,
        path: "/chapters".to_string(),
        query: vec![pair("ids", "a,b")],
        body: None,
        answer: Answer::Document,
    };
    let call = record.call();
    assert_eq!(call, expected);
    for key in ["market"] {
        assert!(!emits(&call, key), "{}", key);
    }
}

#[test]
fn record_saved_audiobooks_endpoint_with_every_option() {
    let record = SavedAudiobooksEndpoint { limit: Some(20), offset: Some(5) };
    let expected = ApiCall {
        method: Method::Get,
        path: "/me/audiobooks".to_string(),
        query: vec![pair("limit", "20"), pair("offset", "5")],
        body: None,
        answer: Answer::Document,
    };
    assert_eq!(record.call(), expected);
}

#[test]
fn record_saved_audiobooks_endpoint_without_options_sends_no_optional_key() {
    let record = SavedAudiobooksEndpoint { limit: None, offset: None };
    let expected = ApiCall {
        method: Method::Get,
        path: "/me/audiobooks".to_string(),
        query: vec![],
        body: None,
        answer: Answer::Document,
    };
    let call = record.call();
    assert_eq!(call, expected);
    for key in ["limit", "offset"] {
        assert!(!emits(&call, key), "{}", key);
    }
}

#[test]
fn record_browse_category_endpoint_with_every_option() {
    let record = BrowseCategoryEndpoint { id: "id-1".to_string(), country: Some("SE".to_string()), locale: Some("sv_SE".to_string()) };
    let expected = ApiCall {
        method: Method::Get,
        path: "/browse/categories/id-1".to_string(),
        query: vec![pair("country", "SE"), pair("locale", "sv_SE")],
        body: None,
        answer: Answer::Document,
    };
    assert_eq!(record.call(), expected);
}

#[test]
fn record_browse_category_endpoint_without_options_sends_no_optional_key() {
    let record = BrowseCategoryEndpoint { id: "id-1".to_string(), country: None, locale: None };
    let expected = ApiCall {
        method: Method::Get,
        path: "/browse/categories/id-1".to_string(),
        query: vec![],
        body: None,
        answer: Answer::Document,
    };
    let call = record.call();
    assert_eq!(call, expected);
    for key in ["country", "locale"] {
        assert!(!emits(&call, key), "{}", key);
    }
}

#[test]
fn record_browse_categories_endpoint_with_every_option() {
    let record = BrowseCategoriesEndpoint { country: Some("SE".to_string()), locale: Some("sv_SE".to_string()), limit: Some(20), offset: Some(5) };
    let expected = ApiCall {
        method: Method::Get,
        path: "/browse/categories".to_string(),
        query: vec![pair("country", "SE"), pair("locale", "sv_SE"), pair("limit", "20"), pair("offset", "5")],
        body: None,
        answer: Answer::Document,
    };
    assert_eq!(record.call(), expected);
}

#[test]
fn record_browse_categories_endpoint_without_options_sends_no_optional_key() {
    let record = BrowseCategoriesEndpoint { country: None, locale: None, limit: None, offset: None };
    let expected = ApiCall {
        method: Method::Get,
        path: "/browse/categories".to_string(),
        query: vec![],
        body: None,
        answer: Answer::Document,
    };
    let call = record.call();
    assert_eq!(call, expected);
    for key in ["country", "locale", "limit", "offset"] {
        assert!(!emits(&call, key), "{}", key);
    }
}

#[test]
fn record_add_item_to_queue_endpoint_with_every_option() {
    let record = AddItemToQueueEndpoint { uri: "uri-1".to_string(), device_id: Some("device_id-1".to_string()) };
    let expected = ApiCall {
        method: Method::Post,
        path: "/me/player/queue".to_string(),
        query: vec![pair("uri", "uri-1"), pair("device_id", "device_id-1")],
        body: None,
        answer: Answer::Nothing,
    };
    assert_eq!(record.call(), expected);
}

#[test]
fn record_add_item_to_queue_endpoint_without_options_sends_no_optional_key() {
    let record = AddItemToQueueEndpoint { uri: "uri-1".to_string(), device_id: None };
    let expected = ApiCall {
        method: Method::Post,
        path: "/me/player/queue".to_string(),
        query: vec![pair("uri", "uri-1")],
        body: None,
        answer: Answer::Nothing,
    };
    let call = record.call();
    assert_eq!(call, expected);
    for key in ["device_id"] {
        assert!(!emits(&call, key), "{}", key);
    }
}

#[test]
fn record_recently_played_tracks_endpoint_with_every_option() {
    let record = RecentlyPlayedTracksEndpoint { limit: Some(20), after: Some(1700000000000), before: Some(1700000000001) };
    let expected = ApiCall {
        method: Method::Get,
        path: "/me/player/recently-played".to_string(),
        query: vec![pair("limit", "20"), pair("after", "1700000000000"), pair("before", "1700000000001")],
        body: None,
        answer: Answer::Document,
    };
    assert_eq!(record.call(), expected);
}

#[test]
fn record_recently_played_tracks_endpoint_without_options_sends_no_optional_key() {
    let record = RecentlyPlayedTracksEndpoint { limit: None, after: None, before: None };
    let expected = ApiCall {
        method: Method::Get,
        path: "/me/player/recently-played".to_string(),
        query: vec![],
        body: None,
        answer: Answer::Document,
    };
    let call = record.call();
    assert_eq!(call, expected);
    for key in ["limit", "after", "before"] {
        assert!(!emits(&call, key), "{}", key);
    }
}

#[test]
fn record_seek_to_position_endpoint_with_every_option() {
    let record = SeekToPositionEndpoint { position_ms: 25000, device_id: Some("device_id-1".to_string()) };
    let expected = ApiCall {
        method: Method::Put,
        path: "/me/player/seek".to_string(),
        query: vec![pair("position_ms", "25000"), pair("device_id", "device_id-1")],
        body: None,
        answer: Answer::Nothing,
    };
    assert_eq!(record.call(), expected);
}

#[test]
fn record_seek_to_position_endpoint_without_options_sends_no_optional_key() {
    let record = SeekToPositionEndpoint { position_ms: 25000, device_id: None };
    let expected = ApiCall {
        method: Method::Put,
        path: "/me/player/seek".to_string(),
        query: vec![pair("position_ms", "25000")],
        body: None,
        answer: Answer::Nothing,
    };
    let call = record.call();
    assert_eq!(call, expected);
    for key in ["device_id"] {
        assert!(!emits(&call, key), "{}", key);
    }
}

#[test]
fn record_set_repeat_mode_endpoint_with_every_option() {
    let record = SetRepeatModeEndpoint { state: RepeatMode::Context, device_id: Some("device_id-1".to_string()) };
    let expected = ApiCall {
        method: Method::Put,
        path: "/me/player/repeat".to_string(),
        query: vec![pair("state", "context"), pair("device_id", "device_id-1")],
        body: None,
        answer: Answer::Nothing,
    };
    assert_eq!(record.call(), expected);
}

#[test]
fn record_set_repeat_mode_endpoint_without_options_sends_no_optional_key() {
    let record = SetRepeatModeEndpoint { state: RepeatMode::Context, device_id: None };
    let expected = ApiCall {
        method: Method::Put,
        path: "/me/player/repeat".to_string(),
        query: vec![pair("state", "context")],
        body: None,
        answer: Answer::Nothing,
    };
    let call = record.call();
    assert_eq!(call, expected);
    for key in ["device_id"] {
        assert!(!emits(&call, key), "{}", key);
    }
}

#[test]
fn record_set_playback_volume_endpoint_with_every_option() {
    let record = SetPlaybackVolumeEndpoint { volume_percent: 55, device_id: Some("device_id-1".to_string()) };
    let expected = ApiCall {
        method: Method::Put,
        path: "/me/player/volume".to_string(),
        query: vec![pair("volume_percent", "55"), pair("device_id", "device_id-1")],
        body: None,
        answer: Answer::Nothing,
    };
    assert_eq!(record.call(), expected);
}

#[test]
fn record_set_playback_volume_endpoint_without_options_sends_no_optional_key() {
    let record = SetPlaybackVolumeEndpoint { volume_percent: 55, device_id: None };
    let expected = ApiCall {
        method: Method::Put,
        path: "/me/player/volume".to_string(),
        query: vec![pair("volume_percent", "55")],
        body: None,
        answer: Answer::Nothing,
    };
    let call = record.call();
    assert_eq!(call, expected);
    for key in ["device_id"] {
        assert!(!emits(&call, key), "{}", key);
    }
}

#[test]
fn record_toggle_shuffle_endpoint_with_every_option() {
    let record = ToggleShuffleEndpoint { state: true, device_id: Some("device_id-1".to_string()) };
    let expected = ApiCall {
        method: Method::Put,
        path: "/me/player/shuffle".to_string(),
        query: vec![pair("state", "true"), pair("device_id", "device_id-1")],
        body: None,
        answer: Answer::Nothing,
    };
    assert_eq!(record.call(), expected);
}

#[test]
fn record_toggle_shuffle_endpoint_without_options_sends_no_optional_key() {
    let record = ToggleShuffleEndpoint { state: true, device_id: None };
    let expected = ApiCall {
        method: Method::Put,
        path: "/me/player/shuffle".to_string(),
        query: vec![pair("state", "true")],
        body: None,
        answer: Answer::Nothing,
    };
    let call = record.call();
    assert_eq!(call, expected);
    for key in ["device_id"] {
        assert!(!emits(&call, key), "{}", key);
    }
}

#[test]
fn record_start_playback_endpoint_with_every_option() {
    let record = StartPlaybackEndpoint { device_id: Some("device_id-1".to_string()), context_uri: Some("context_uri-1".to_string()), uris: Some(vec!["x1".to_string(), "x2".to_string()]), offset: Some(Offset::Position(3)), position_ms: Some(25000) };
    let expected = ApiCall {
        method: Method::Put,
        path: "/me/player/play".to_string(),
        query: vec![pair("device_id", "device_id-1")],
        body: Some(Body::Json(Json::Object(vec![("context_uri".to_string(), Json::Text("context_uri-1".to_string())), ("uris".to_string(), Json::Array(vec![Json::Text("x1".to_string()), Json::Text("x2".to_string())])), ("offset".to_string(), Json::Object(vec![("position".to_string(), Json::Integer(3))])), ("position_ms".to_string(), Json::Integer(25000))]))),
        answer: Answer::Nothing,
    };
    assert_eq!(record.call(), expected);
}

#[test]
fn record_start_playback_endpoint_without_options_sends_no_optional_key() {
    let record = StartPlaybackEndpoint { device_id: None, context_uri: None, uris: None, offset: None, position_ms: None };
    let expected = ApiCall {
        method: Method::Put,
        path: "/me/player/play".to_string(),
        query: vec![],
        body: Some(Body::Json(Json::Object(vec![]))),
        answer: Answer::Nothing,
    };
    let call = record.call();
    assert_eq!(call, expected);
    for key in ["device_id", "context_uri", "uris", "offset", "position_ms"] {
        assert!(!emits(&call, key), "{}", key);
    }
}

#[test]
fn record_transfer_playback_endpoint_with_every_option() {
    let record = TransferPlaybackEndpoint { device_ids: vec!["x1".to_string(), "x2".to_string()], play: Some(true) };
    let expected = ApiCall {
        method: Method::Put,
        path: "/me/player".to_string(),
        query: vec![],
        body: Some(Body::Json(Json::Object(vec![("device_ids".to_string(), Json::Array(vec![Json::Text("x1".to_string()), Json::Text("x2".to_string())])), ("play".to_string(), Json::Bool(true))]))),
        answer: Answer::Nothing,
    };
    assert_eq!(record.call(), expected);
}

#[test]
fn record_transfer_playback_endpoint_without_options_sends_no_optional_key() {
    let record = TransferPlaybackEndpoint { device_ids: vec!["x1".to_string(), "x2".to_string()], play: None };
    let expected = ApiCall {
        method: Method::Put,
        path: "/me/player".to_string(),
        query: vec![],
        body: Some(Body::Json(Json::Object(vec![("device_ids".to_string(), Json::Array(vec![Json::Text("x1".to_string()), Json::Text("x2".to_string())]))]))),
        answer: Answer::Nothing,
    };
    let call = record.call();
    assert_eq!(call, expected);
    for key in ["play"] {
        assert!(!emits(&call, key), "{}", key);
    }
}

#[test]
fn record_playlist_endpoint_with_every_option() {
    let record = PlaylistEndpoint { id: "id-1".to_string(), market: Some("US".to_string()), fields: Some("fields-1".to_string()), additional_types: Some("additional_types-1".to_string()) };
    let expected = ApiCall {
        method: Method::Get,
        path: "/playlists/id-1".to_string(),
        query: vec![pair("market", "US"), pair("fields", "fields-1"), pair("additional_types", "additional_types-1")],
        body: None,
        answer: Answer::Document,
    };
    assert_eq!(record.call(), expected);
}

#[test]
fn record_playlist_endpoint_without_options_sends_no_optional_key() {
    let record = PlaylistEndpoint { id: "id-1".to_string(), market: None, fields: None, additional_types: None };
    let expected = ApiCall {
        method: Method::Get,
        path: "/playlists/id-1".to_string(),
        query: vec![],
        body: None,
        answer: Answer::Document,
    };
    let call = record.call();
    assert_eq!(call, expected);
    for key in ["market", "fields", "additional_types"] {
        assert!(!emits(&call, key), "{}", key);
    }
}

#[test]
fn record_change_playlist_details_endpoint_with_every_option() {
    let record = ChangePlaylistDetailsEndpoint { id: "id-1".to_string(), name: Some("name-1".to_string()), public: Some(true), collaborative: Some(true), description: Some("description-1".to_string()) };
    let expected = ApiCall {
        method: Method::Put,
        path: "/playlists/id-1".to_string(),
        query: vec![],
        body: Some(Body::Json(Json::Object(vec![("name".to_string(), Json::Text("name-1".to_string())), ("public".to_string(), Json::Bool(true)), ("collaborative".to_string(), Json::Bool(true)), ("description".to_string(), Json::Text("description-1".to_string()))]))),
        answer: Answer::Nothing,
    };
    assert_eq!(record.call(), expected);
}

#[test]
fn record_change_playlist_details_endpoint_without_options_sends_no_optional_key() {
    let record = ChangePlaylistDetailsEndpoint { id: "id-1".to_string(), name: None, public: None, collaborative: None, description: None };
    let expected = ApiCall {
        method: Method::Put,
        path: "/playlists/id-1".to_string(),
        query: vec![],
        body: Some(Body::Json(Json::Object(vec![]))),
        answer: Answer::Nothing,
    };
    let call = record.call();
    assert_eq!(call, expected);
    for key in ["name", "public", "collaborative", "description"] {
        assert!(!emits(&call, key), "{}", key);
    }
}

#[test]
fn record_playlist_items_endpoint_with_every_option() {
    let record = PlaylistItemsEndpoint { id: "id-1".to_string(), market: Some("US".to_string()), fields: Some("fields-1".to_string()), limit: Some(20), offset: Some(5), additional_types: Some("additional_types-1".to_string()) };
    let expected = ApiCall {
        method: Method::Get,
        path: "/playlists/id-1/tracks".to_string(),
        query: vec![pair("market", "US"), pair("fields", "fields-1"), pair("limit", "20"), pair("offset", "5"), pair("additional_types", "additional_types-1")],
        body: None,
        answer: Answer::Document,
    };
    assert_eq!(record.call(), expected);
}

#[test]
fn record_playlist_items_endpoint_without_options_sends_no_optional_key() {
    let record = PlaylistItemsEndpoint { id: "id-1".to_string(), market: None, fields: None, limit: None, offset: None, additional_types: None };
    let expected = ApiCall {
        method: Method::Get,
        path: "/playlists/id-1/tracks".to_string(),
        query: vec![],
        body: None,
        answer: Answer::Document,
    };
    let call = record.call();
    assert_eq!(call, expected);
    for key in ["market", "fields", "limit", "offset", "additional_types"] {
        assert!(!emits(&call, key), "{}", key);
    }
}

#[test]
fn record_update_playlist_items_endpoint_with_every_option() {
    let record = UpdatePlaylistItemsEndpoint { id: "id-1".to_string(), range_start: 3, insert_before: 9, uris: Some(vec!["x1".to_string(), "x2".to_string()]), range_length: Some(2), snapshot_id: Some("snapshot_id-1".to_string()) };
    let expected = ApiCall {
        method: Method::Put,
        path: "/playlists/id-1/tracks".to_string(),
        query: vec![],
        body: Some(Body::Json(Json::Object(vec![("range_start".to_string(), Json::Integer(3)), ("insert_before".to_string(), Json::Integer(9)), ("uris".to_string(), Json::Array(vec![Json::Text("x1".to_string()), Json::Text("x2".to_string())])), ("range_length".to_string(), Json::Integer(2)), ("snapshot_id".to_string(), Json::Text("snapshot_id-1".to_string()))]))),
        answer: Answer::Document,
    };
    assert_eq!(record.call(), expected);
}

#[test]
fn record_update_playlist_items_endpoint_without_options_sends_no_optional_key() {
    let record = UpdatePlaylistItemsEndpoint { id: "id-1".to_string(), range_start: 3, insert_before: 9, uris: None, range_length: None, snapshot_id: None };
    let expected = ApiCall {
        method: Method::Put,
        path: "/playlists/id-1/tracks".to_string(),
        query: vec![],
        body: Some(Body::Json(Json::Object(vec![("range_start".to_string(), Json::Integer(3)), ("insert_before".to_string(), Json::Integer(9))]))),
        answer: Answer::Document,
    };
    let call = record.call();
    assert_eq!(call, expected);
    for key in ["uris", "range_length", "snapshot_id"] {
        assert!(!emits(&call, key), "{}", key);
    }
}

#[test]
fn record_add_playlist_items_endpoint_with_every_option() {
    let record = AddPlaylistItemsEndpoint { id: "id-1".to_string(), uris: vec!["x1".to_string(), "x2".to_string()], position: Some(4) };
    let expected = ApiCall {
        method: Method::Post,
        path: "/playlists/id-1/tracks".to_string(),
        query: vec![],
        body: Some(Body::Json(Json::Object(vec![("uris".to_string(), Json::Array(vec![Json::Text("x1".to_string()), Json::Text("x2".to_string())])), ("position".to_string(), Json::Integer(4))]))),
        answer: Answer::Document,
    };
    assert_eq!(record.call(), expected);
}

#[test]
fn record_add_playlist_items_endpoint_without_options_sends_no_optional_key() {
    let record = AddPlaylistItemsEndpoint { id: "id-1".to_string(), uris: vec!["x1".to_string(), "x2".to_string()], position: None };
    let expected = ApiCall {
        method: Method::Post,
        path: "/playlists/id-1/tracks".to_string(),
        query: vec![],
        body: Some(Body::Json(Json::Object(vec![("uris".to_string(), Json::Array(vec![Json::Text("x1".to_string()), Json::Text("x2".to_string())]))]))),
        answer: Answer::Document,
    };
    let call = record.call();
    assert_eq!(call, expected);
    for key in ["position"] {
        assert!(!emits(&call, key), "{}", key);
    }
}

#[test]
fn record_remove_playlist_items_endpoint_with_every_option() {
    let record = RemovePlaylistItemsEndpoint { id: "id-1".to_string(), tracks: vec!["x1".to_string(), "x2".to_string()], snapshot_id: Some("snapshot_id-1".to_string()) };
    let expected = ApiCall {
        method: Method::Delete,
        path: "/playlists/id-1/tracks".to_string(),
        query: vec![],
        body: Some(Body::Json(Json::Object(vec![("tracks".to_string(), Json::Array(vec![Json::Object(vec![("uri".to_string(), Json::Text("x1".to_string()))]), Json::Object(vec![("uri".to_string(), Json::Text("x2".to_string()))])])), ("snapshot_id".to_string(), Json::Text("snapshot_id-1".to_string()))]))),
        answer: Answer::Document,
    };
    assert_eq!(record.call(), expected);
}

#[test]
fn record_remove_playlist_items_endpoint_without_options_sends_no_optional_key() {
    let record = RemovePlaylistItemsEndpoint { id: "id-1".to_string(), tracks: vec!["x1".to_string(), "x2".to_string()], snapshot_id: None };
    let expected = ApiCall {
        method: Method::Delete,
        path: "/playlists/id-1/tracks".to_string(),
        query: vec![],
        body: Some(Body::Json(Json::Object(vec![("tracks".to_string(), Json::Array(vec![Json::Object(vec![("uri".to_string(), Json::Text("x1".to_string()))]), Json::Object(vec![("uri".to_string(), Json::Text("x2".to_string()))])]))]))),
        answer: Answer::Document,
    };
    let call = record.call();
    assert_eq!(call, expected);
    for key in ["snapshot_id"] {
        assert!(!emits(&call, key), "{}", key);
    }
}

#[test]
fn record_current_user_playlists_endpoint_with_every_option() {
    let record = CurrentUserPlaylistsEndpoint { limit: Some(20), offset: Some(5) };
    let expected = ApiCall {
        method: Method::Get,
        path: "/me/playlists".to_string(),
        query: vec![pair("limit", "20"), pair("offset", "5")],
        body: None,
        answer: Answer::Document,
    };
    assert_eq!(record.call(), expected);
}

#[test]
fn record_current_user_playlists_endpoint_without_options_sends_no_optional_key() {
    let record = CurrentUserPlaylistsEndpoint { limit: None, offset: None };
    let expected = ApiCall {
        method: Method::Get,
        path: "/me/playlists".to_string(),
        query: vec![],
        body: None,
        answer: Answer::Document,
    };
    let call = record.call();
    assert_eq!(call, expected);
    for key in ["limit", "offset"] {
        assert!(!emits(&call, key), "{}", key);
    }
}

#[test]
fn record_user_playlists_endpoint_with_every_option() {
    let record = UserPlaylistsEndpoint { id: "id-1".to_string(), limit: Some(20), offset: Some(5) };
    let expected = ApiCall {
        method: Method::Get,
        path: "/users/id-1/playlists".to_string(),
        query: vec![pair("limit", "20"), pair("offset", "5")],
        body: None,
        answer: Answer::Document,
    };
    assert_eq!(record.call(), expected);
}

#[test]
fn record_user_playlists_endpoint_without_options_sends_no_optional_key() {
    let record = UserPlaylistsEndpoint { id: "id-1".to_string(), limit: None, offset: None };
    let expected = ApiCall {
        method: Method::Get,
        path: "/users/id-1/playlists".to_string(),
        query: vec![],
        body: None,
        answer: Answer::Document,
    };
    let call = record.call();
    assert_eq!(call, expected);
    for key in ["limit", "offset"] {
        assert!(!emits(&call, key), "{}", key);
    }
}

#[test]
fn record_create_playlist_endpoint_with_every_option() {
    let record = CreatePlaylistEndpoint { user_id: "user_id-1".to_string(), name: "name-1".to_string(), public: Some(true), collaborative: Some(true), description: Some("description-1".to_string()) };
    let expected = ApiCall {
        method: Method::Post,
        path: "/users/user_id-1/playlists".to_string(),
        query: vec![],
        body: Some(Body::Json(Json::Object(vec![("name".to_string(), Json::Text("name-1".to_string())), ("public".to_string(), Json::Bool(true)), ("collaborative".to_string(), Json::Bool(true)), ("description".to_string(), Json::Text("description-1".to_string()))]))),
        answer: Answer::Document,
    };
    assert_eq!(record.call(), expected);
}

#[test]
fn record_create_playlist_endpoint_without_options_sends_no_optional_key() {
    let record = CreatePlaylistEndpoint { user_id: "user_id-1".to_string(), name: "name-1".to_string(), public: None, collaborative: None, description: None };
    let expected = ApiCall {
        method: Method::Post,
        path: "/users/user_id-1/playlists".to_string(),
        query: vec![],
        body: Some(Body::Json(Json::Object(vec![("name".to_string(), Json::Text("name-1".to_string()))]))),
        answer: Answer::Document,
    };
    let call = record.call();
    assert_eq!(call, expected);
    for key in ["public", "collaborative", "description"] {
        assert!(!emits(&call, key), "{}", key);
    }
}

#[test]
fn record_featured_playlists_endpoint_with_every_option() {
    let record = FeaturedPlaylistsEndpoint { country: Some("SE".to_string()), locale: Some("sv_SE".to_string()), timestamp: Some("2023-10-23T09:05:00Z".to_string()), limit: Some(20), offset: Some(5) };
    let expected = ApiCall {
        method: Method::Get,
        path: "/browse/featured-playlists".to_string(),
        query: vec![pair("country", "SE"), pair("locale", "sv_SE"), pair("timestamp", "2023-10-23T09:05:00Z"), pair("limit", "20"), pair("offset", "5")],
        body: None,
        answer: Answer::Document,
    };
    assert_eq!(record.call(), expected);
}

#[test]
fn record_featured_playlists_endpoint_without_options_sends_no_optional_key() {
    let record = FeaturedPlaylistsEndpoint { country: None, locale: None, timestamp: None, limit: None, offset: None };
    let expected = ApiCall {
        method: Method::Get,
        path: "/browse/featured-playlists".to_string(),
        query: vec![],
        body: None,
        answer: Answer::Document,
    };
    let call = record.call();
    assert_eq!(call, expected);
    for key in ["country", "locale", "timestamp", "limit", "offset"] {
        assert!(!emits(&call, key), "{}", key);
    }
}

#[test]
fn record_category_playlists_endpoint_with_every_option() {
    let record = CategoryPlaylistsEndpoint { id: "id-1".to_string(), country: Some("SE".to_string()), limit: Some(20), offset: Some(5) };
    let expected = ApiCall {
        method: Method::Get,
        path: "/browse/categories/id-1/playlists".to_string(),
        query: vec![pair("country", "SE"), pair("limit", "20"), pair("offset", "5")],
        body: None,
        answer: Answer::Document,
    };
    assert_eq!(record.call(), expected);
}

#[test]
fn record_category_playlists_endpoint_without_options_sends_no_optional_key() {
    let record = CategoryPlaylistsEndpoint { id: "id-1".to_string(), country: None, limit: None, offset: None };
    let expected = ApiCall {
        method: Method::Get,
        path: "/browse/categories/id-1/playlists".to_string(),
        query: vec![],
        body: None,
        answer: Answer::Document,
    };
    let call = record.call();
    assert_eq!(call, expected);
    for key in ["country", "limit", "offset"] {
        assert!(!emits(&call, key), "{}", key);
    }
}

#[test]
fn record_show_endpoint_with_every_option() {
    let record = ShowEndpoint { id: "id-1".to_string(), market: Some("US".to_string()) };
    let expected = ApiCall {
        method: Method::Get,
        path: "/shows/id-1".to_string(),
        query: vec![pair("market", "US")],
        body: None,
        answer: Answer::Document,
    };
    assert_eq!(record.call(), expected);
}

#[test]
fn record_show_endpoint_without_options_sends_no_optional_key() {
    let record = ShowEndpoint { id: "id-1".to_string(), market: None };
    let expected = ApiCall {
        method: Method::Get,
        path: "/shows/id-1".to_string(),
        query: vec![],
        body: None,
        answer: Answer::Document,
    };
    let call = record.call();
    assert_eq!(call, expected);
    for key in ["market"] {
        assert!(!emits(&call, key), "{}", key);
    }
}

#[test]
fn record_shows_endpoint_with_every_option() {
    let record = ShowsEndpoint { ids: "a,b".to_string(), market: Some("US".to_string()) };
    let expected = ApiCall {
        method: Method::Get,
        path: "/shows".to_string(),
        query: vec![pair("ids", "a,b"), pair("market", "US")],
        body: None,
        answer: Answer::Document,
    };
    assert_eq!(record.call(), expected);
}

#[test]
fn record_shows_endpoint_without_options_sends_no_optional_key() {
    let record = ShowsEndpoint { ids: "a,b".to_string(), market: None };
    let expected = ApiCall {
        method: Method::Get,
        path: "/shows".to_string(),
        query: vec![pair("ids", "a,b")],
        body: None,
        answer: Answer::Document,
    };
    let call = record.call();
    assert_eq!(call, expected);
    for key in ["market"] {
        assert!(!emits(&call, key), "{}", key);
    }
}

#[test]
fn record_show_episodes_endpoint_with_every_option() {
    let record = ShowEpisodesEndpoint { show_id: "show_id-1".to_string(), market: Some("US".to_string()), limit: Some(20), offset: Some(5) };
    let expected = ApiCall {
        method: Method::Get,
        path: "/shows/show_id-1/episodes".to_string(),
        query: vec![pair("market", "US"), pair("limit", "20"), pair("offset", "5")],
        body: None,
        answer: Answer::Document,
    };
    assert_eq!(record.call(), expected);
}

#[test]
fn record_show_episodes_endpoint_without_options_sends_no_optional_key() {
    let record = ShowEpisodesEndpoint { show_id: "show_id-1".to_string(), market: None, limit: None, offset: None };
    let expected = ApiCall {
        method: Method::Get,
        path: "/shows/show_id-1/episodes".to_string(),
        query: vec![],
        body: None,
        answer: Answer::Document,
    };
    let call = record.call();
    assert_eq!(call, expected);
    for key in ["market", "limit", "offset"] {
        assert!(!emits(&call, key), "{}", key);
    }
}

#[test]
fn record_saved_shows_endpoint_with_every_option() {
    let record = SavedShowsEndpoint { limit: Some(20), offset: Some(5) };
    let expected = ApiCall {
        method: Method::Get,
        path: "/me/shows".to_string(),
        query: vec![pair("limit", "20"), pair("offset", "5")],
        body: None,
        answer: Answer::Document,
    };
    assert_eq!(record.call(), expected);
}

#[test]
fn record_saved_shows_endpoint_without_options_sends_no_optional_key() {
    let record = SavedShowsEndpoint { limit: None, offset: None };
    let expected = ApiCall {
        method: Method::Get,
        path: "/me/shows".to_string(),
        query: vec![],
        body: None,
        answer: Answer::Document,
    };
    let call = record.call();
    assert_eq!(call, expected);
    for key in ["limit", "offset"] {
        assert!(!emits(&call, key), "{}", key);
    }
}

#[test]
fn record_episode_endpoint_with_every_option() {
    let record = EpisodeEndpoint { id: "id-1".to_string(), market: Some("US".to_string()) };
    let expected = ApiCall {
        method: Method::Get,
        path: "/episodes/id-1".to_string(),
        query: vec![pair("market", "US")],
        body: None,
        answer: Answer::Document,
    };
    assert_eq!(record.call(), expected);
}

#[test]
fn record_episode_endpoint_without_options_sends_no_optional_key() {
    let record = EpisodeEndpoint { id: "id-1".to_string(), market: None };
    let expected = ApiCall {
        method: Method::Get,
        path: "/episodes/id-1".to_string(),
        query: vec![],
        body: None,
        answer: Answer::Document,
    };
    let call = record.call();
    assert_eq!(call, expected);
    for key in ["market"] {
        assert!(!emits(&call, key), "{}", key);
    }
}

#[test]
fn record_episodes_endpoint_with_every_option() {
    let record = EpisodesEndpoint { ids: "a,b".to_string(), market: Some("US".to_string()) };
    let expected = ApiCall {
        method: Method::Get,
        path: "/episodes".to_string(),
        query: vec![pair("ids", "a,b"), pair("market", "US")],
        body: None,
        answer: Answer::Document,
    };
    assert_eq!(record.call(), expected);
}

#[test]
fn record_episodes_endpoint_without_options_sends_no_optional_key() {
    let record = EpisodesEndpoint { ids: "a,b".to_string(), market: None };
    let expected = ApiCall {
        method: Method::Get,
        path: "/episodes".to_string(),
        query: vec![pair("ids", "a,b")],
        body: None,
        answer: Answer::Document,
    };
    let call = record.call();
    assert_eq!(call, expected);
    for key in ["market"] {
        assert!(!emits(&call, key), "{}", key);
    }
}

#[test]
fn record_saved_episodes_endpoint_with_every_option() {
    let record = SavedEpisodesEndpoint { market: Some("US".to_string()), limit: Some(20), offset: Some(5) };
    let expected = ApiCall {
        method: Method::Get,
        path: "/me/episodes".to_string(),
        query: vec![pair("market", "US"), pair("limit", "20"), pair("offset", "5")],
        body: None,
        answer: Answer::Document,
    };
    assert_eq!(record.call(), expected);
}

#[test]
fn record_saved_episodes_endpoint_without_options_sends_no_optional_key() {
    let record = SavedEpisodesEndpoint { market: None, limit: None, offset: None };
    let expected = ApiCall {
        method: Method::Get,
        path: "/me/episodes".to_string(),
        query: vec![],
        body: None,
        answer: Answer::Document,
    };
    let call = record.call();
    assert_eq!(call, expected);
    for key in ["market", "limit", "offset"] {
        assert!(!emits(&call, key), "{}", key);
    }
}

#[test]
fn record_track_endpoint_with_every_option() {
    let record = TrackEndpoint { id: "id-1".to_string(), market: Some("US".to_string()) };
    let expected = ApiCall {
        method: Method::Get,
        path: "/tracks/id-1".to_string(),
        query: vec![pair("market", "US")],
        body: None,
        answer: Answer::Document,
    };
    assert_eq!(record.call(), expected);
}

#[test]
fn record_track_endpoint_without_options_sends_no_optional_key() {
    let record = TrackEndpoint { id: "id-1".to_string(), market: None };
    let expected = ApiCall {
        method: Method::Get,
        path: "/tracks/id-1".to_string(),
        query: vec![],
        body: None,
        answer: Answer::Document,
    };
    let call = record.call();
    assert_eq!(call, expected);
    for key in ["market"] {
        assert!(!emits(&call, key), "{}", key);
    }
}

#[test]
fn record_tracks_endpoint_with_every_option() {
    let record = TracksEndpoint { ids: "a,b".to_string(), market: Some("US".to_string()) };
    let expected = ApiCall {
        method: Method::Get,
        path: "/tracks".to_string(),
        query: vec![pair("ids", "a,b"), pair("market", "US")],
        body: None,
        answer: Answer::Document,
    };
    assert_eq!(record.call(), expected);
}

#[test]
fn record_tracks_endpoint_without_options_sends_no_optional_key() {
    let record = TracksEndpoint { ids: "a,b".to_string(), market: None };
    let expected = ApiCall {
        method: Method::Get,
        path: "/tracks".to_string(),
        query: vec![pair("ids", "a,b")],
        body: None,
        answer: Answer::Document,
    };
    let call = record.call();
    assert_eq!(call, expected);
    for key in ["market"] {
        assert!(!emits(&call, key), "{}", key);
    }
}

#[test]
fn record_saved_tracks_endpoint_with_every_option() {
    let record = SavedTracksEndpoint { market: Some("US".to_string()), limit: Some(20), offset: Some(5) };
    let expected = ApiCall {
        method: Method::Get,
        path: "/me/tracks".to_string(),
        query: vec![pair("market", "US"), pair("limit", "20"), pair("offset", "5")],
        body: None,
        answer: Answer::Document,
    };
    assert_eq!(record.call(), expected);
}

#[test]
fn record_saved_tracks_endpoint_without_options_sends_no_optional_key() {
    let record = SavedTracksEndpoint { market: None, limit: None, offset: None };
    let expected = ApiCall {
        method: Method::Get,
        path: "/me/tracks".to_string(),
        query: vec![],
        body: None,
        answer: Answer::Document,
    };
    let call = record.call();
    assert_eq!(call, expected);
    for key in ["market", "limit", "offset"] {
        assert!(!emits(&call, key), "{}", key);
    }
}

#[test]
fn record_search_endpoint_with_every_option() {
    let record = SearchEndpoint { query: "query-1".to_string(), item_types: "item_types-1".to_string(), market: Some("US".to_string()), limit: Some(20), offset: Some(5), include_external: Some("include_external-1".to_string()) };
    let expected = ApiCall {
        method: Method::Get,
        path: "/search".to_string(),
        query: vec![pair("q", "query-1"), pair("type", "item_types-1"), pair("market", "US"), pair("limit", "20"), pair("offset", "5"), pair("include_external", "include_external-1")],
        body: None,
        answer: Answer::Document,
    };
    assert_eq!(record.call(), expected);
}

#[test]
fn record_search_endpoint_without_options_sends_no_optional_key() {
    let record = SearchEndpoint { query: "query-1".to_string(), item_types: "item_types-1".to_string(), market: None, limit: None, offset: None, include_external: None };
    let expected = ApiCall {
        method: Method::Get,
        path: "/search".to_string(),
        query: vec![pair("q", "query-1"), pair("type", "item_types-1")],
        body: None,
        answer: Answer::Document,
    };
    let call = record.call();
    assert_eq!(call, expected);
    for key in ["market", "limit", "offset", "include_external"] {
        assert!(!emits(&call, key), "{}", key);
    }
}

#[test]
fn record_user_top_items_endpoint_with_every_option() {
    let record = UserTopItemsEndpoint { item_type: UserItemType::Tracks, time_range: Some(TimeRange::LongTerm), limit: Some(20), offset: Some(5) };
    let expected = ApiCall {
        method: Method::Get,
        path: "/me/top/tracks".to_string(),
        query: vec![pair("time_range", "long_term"), pair("limit", "20"), pair("offset", "5")],
        body: None,
        answer: Answer::Document,
    };
    assert_eq!(record.call(), expected);
}

#[test]
fn record_user_top_items_endpoint_without_options_sends_no_optional_key() {
    let record = UserTopItemsEndpoint { item_type: UserItemType::Tracks, time_range: None, limit: None, offset: None };
    let expected = ApiCall {
        method: Method::Get,
        path: "/me/top/tracks".to_string(),
        query: vec![],
        body: None,
        answer: Answer::Document,
    };
    let call = record.call();
    assert_eq!(call, expected);
    for key in ["time_range", "limit", "offset"] {
        assert!(!emits(&call, key), "{}", key);
    }
}

#[test]
fn record_follow_playlist_builder_with_every_option() {
    let record = FollowPlaylistBuilder { id: "id-1".to_string(), public: Some(true) };
    let expected = ApiCall {
        method: Method::Put,
        path: "/playlists/id-1/followers".to_string(),
        query: vec![],
        body: Some(Body::Json(Json::Object(vec![("public".to_string(), Json::Bool(true))]))),
        answer: Answer::Nothing,
    };
    assert_eq!(record.call(), expected);
}

#[test]
fn record_follow_playlist_builder_without_options_sends_no_optional_key() {
    let record = FollowPlaylistBuilder { id: "id-1".to_string(), public: None };
    let expected = ApiCall {
        method: Method::Put,
        path: "/playlists/id-1/followers".to_string(),
        query: vec![],
        body: Some(Body::Json(Json::Object(vec![]))),
        answer: Answer::Nothing,
    };
    let call = record.call();
    assert_eq!(call, expected);
    for key in ["public"] {
        assert!(!emits(&call, key), "{}", key);
    }
}

#[test]
fn record_followed_artists_builder_with_every_option() {
    let record = FollowedArtistsBuilder { kind: "kind-1".to_string(), after: Some("after-1".to_string()), limit: Some(20) };
    let expected = ApiCall {
        method: Method::Get,
        path: "/me/following".to_string(),
        query: vec![pair("type", "kind-1"), pair("after", "after-1"), pair("limit", "20")],
        body: None,
        answer: Answer::Document,
    };
    assert_eq!(record.call(), expected);
}

#[test]
fn record_followed_artists_builder_without_options_sends_no_optional_key() {
    let record = FollowedArtistsBuilder { kind: "kind-1".to_string(), after: None, limit: None };
    let expected = ApiCall {
        method: Method::Get,
        path: "/me/following".to_string(),
        query: vec![pair("type", "kind-1")],
        body: None,
        answer: Answer::Document,
    };
    let call = record.call();
    assert_eq!(call, expected);
    for key in ["after", "limit"] {
        assert!(!emits(&call, key), "{}", key);
    }
}

#[test]
fn record_follow_user_or_artist_endpoint_with_every_option() {
    let record = FollowUserOrArtistEndpoint { kind: "kind-1".to_string(), ids: vec!["x1".to_string(), "x2".to_string()] };
    let expected = ApiCall {
        method: Method::Put,
        path: "/me/following".to_string(),
        query: vec![pair("type", "kind-1")],
        body: Some(Body::Json(Json::Object(vec![("ids".to_string(), Json::Array(vec![Json::Text("x1".to_string()), Json::Text("x2".to_string())]))]))),
        answer: Answer::Nothing,
    };
    assert_eq!(record.call(), expected);
}
