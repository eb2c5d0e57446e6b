use spotify_client::auth::{
    AuthCodeGrantFlow, ClientCredsGrantFlow, RedirectUri, Token, TokenGrant,
};
use spotify_client::client::{Client, Dispatch};
use spotify_client::http::{Answer, Body, HttpRequest, Listing, Method};
use spotify_client::json::Json;

const NOW: u64 = 2_000;

fn grant() -> TokenGrant {
    TokenGrant {
        access_token: "access-1".to_string(),
        token_type: "Bearer".to_string(),
        refresh_token: None,
        expires_in: 3600,
        scopes: vec![],
    }
}

fn redirect() -> RedirectUri {
    RedirectUri::new("http://localhost/".to_string()).unwrap()
}

fn app_client() -> Client<Token, ClientCredsGrantFlow> {
    let flow = ClientCredsGrantFlow { client_id: "c".to_string(), client_secret: "s".to_string() };
    Client::new(flow, redirect(), false)
        .authenticate(&[])
        .complete(Ok(grant()), 1_000)
        .ok()
        .unwrap()
}

fn user_client() -> Client<Token, AuthCodeGrantFlow> {
    let flow = AuthCodeGrantFlow { client_id: "c".to_string(), client_secret: "s".to_string() };
    Client::from_refresh_token(flow, redirect(), false, &[], "r".to_string())
        .complete(Ok(grant()), 1_000)
        .ok()
        .unwrap()
}

fn pair(key: &str, value: &str) -> (String, String) {
    (key.to_string(), value.to_string())
}

#[test]
fn direct_get_artists() {
    let client = app_client();
    let decided = client.get_artists(NOW, &["a", "b"]);
    let expected = Dispatch::Send(HttpRequest {
        method: Method::Get,
        url: "https://api.spotify.com/v1/artists".to_string(),
        headers: vec![pair("Authorization", "Bearer access-1"), pair("Content-Length", "0")],
        query: vec![pair("ids", "a,b")],
        body: None,
        answer: Answer::Member(Listing::Artists),
    });
    assert_eq!(decided, expected);
}

#[test]
fn direct_get_genre_seeds() {
    let client = app_client();
    let decided = client.get_genre_seeds(NOW);
    let expected = Dispatch::Send(HttpRequest {
        method: Method::Get,
        url: "https://api.spotify.com/v1/recommendations/available-genre-seeds".to_string(),
        headers: vec![pair("Authorization", "Bearer access-1"), pair("Content-Length", "0")],
        query: vec![],
        body: None,
        answer: Answer::Member(Listing::Genres),
    });
    assert_eq!(decided, expected);
}

#[test]
fn direct_get_available_markets() {
    let client = app_client();
    let decided = client.get_available_markets(NOW);
    let expected = Dispatch::Send(HttpRequest {
        method: Method::Get,
        url: "https://api.spotify.com/v1/markets".to_string(),
        headers: vec![pair("Authorization", "Bearer access-1"), pair("Content-Length", "0")],
        query: vec![],
        body: None,
        answer: Answer::Member(Listing::Markets),
    });
    assert_eq!(decided, expected);
}

#[test]
fn direct_get_playlist_image() {
    let client = app_client();
    let decided = client.get_playlist_image(NOW, "id-1");
    let expected = Dispatch::Send(HttpRequest {
        method: Method::Get,
        url: "https://api.spotify.com/v1/playlists/id-1/images".to_string(),
        headers: vec![pair("Authorization", "Bearer access-1"), pair("Content-Length", "0")],
        query: vec![],
        body: None,
        answer: Answer::Document,
    });
    assert_eq!(decided, expected);
}

#[test]
fn direct_get_track_audio_features() {
    let client = app_client();
    let decided = client.get_track_audio_features(NOW, "id-1");
    let expected = Dispatch::Send(HttpRequest {
        method: Method::Get,
        url: "https://api.spotify.com/v1/audio-features/id-1".to_string(),
        headers: vec![pair("Authorization", "Bearer access-1"), pair("Content-Length", "0")],
        query: vec![],
        body: None,
        answer: Answer::Document,
    });
    assert_eq!(decided, expected);
}

#[test]
fn direct_get_tracks_audio_features() {
    let client = app_client();
    let decided = client.get_tracks_audio_features(NOW, &["a", "b"]);
    let expected = Dispatch::Send(HttpRequest {
        method: Method::Get,
        url: "https://api.spotify.com/v1/audio-features".to_string(),
        headers: vec![pair("Authorization", "Bearer access-1"), pair("Content-Length", "0")],
        query: vec![pair("ids", "a,b")],
        body: None,
        answer: Answer::Member(Listing::AudioFeatures),
    });
    assert_eq!(decided, expected);
}

#[test]
fn direct_get_track_audio_analysis() {
    let client = app_client();
    let decided = client.get_track_audio_analysis(NOW, "id-1");
    let expected = Dispatch::Send(HttpRequest {
        method: Method::Get,
        url: "https://api.spotify.com/v1/audio-analysis/id-1".to_string(),
        headers: vec![pair("Authorization", "Bearer access-1"), pair("Content-Length", "0")],
        query: vec![],
        body: None,
        answer: Answer::Document,
    });
    assert_eq!(decided, expected);
}

#[test]
fn direct_get_user() {
    let client = app_client();
    let decided = client.get_user(NOW, "id-1");
    let expected = Dispatch::Send(HttpRequest {
        method: Method::Get,
        url: "https://api.spotify.com/v1/users/id-1".to_string(),
        headers: vec![pair("Authorization", "Bearer access-1"), pair("Content-Length", "0")],
        query: vec![],
        body: None,
        answer: Answer::Document,
    });
    assert_eq!(decided, expected);
}

#[test]
fn direct_check_if_users_follow_playlist() {
    let client = app_client();
    let decided = client.check_if_users_follow_playlist(NOW, "playlist_id-1", &["a", "b"]);
    let expected = Dispatch::Send(HttpRequest {
        method: Method::Get,
        url: "https://api.spotify.com/v1/playlists/playlist_id-1/followers/contains".to_string(),
        headers: vec![pair("Authorization", "Bearer access-1"), pair("Content-Length", "0")],
        query: vec![pair("ids", "a,b")],
        body: None,
        answer: Answer::Document,
    });
    assert_eq!(decided, expected);
}

#[test]
fn direct_save_albums() {
    let client = user_client();
    let decided = client.save_albums(NOW, &["a", "b"]);
    let expected = Dispatch::Send(HttpRequest {
        method: Method::Put,
        url: "https://api.spotify.com/v1/me/albums".to_string(),
        headers: vec![pair("Authorization", "Bearer access-1"), pair("Content-Type", "application/json")],
        query: vec![],
        body: Some(Body::Json(Json::Object(vec![("ids".to_string(), Json::Array(vec![Json::Text("a".to_string()), Json::Text("b".to_string())]))]))),
        answer: Answer::Nothing,
    });
    assert_eq!(decided, expected);
}

#[test]
fn direct_remove_saved_albums() {
    let client = user_client();
    let decided = client.remove_saved_albums(NOW, &["a", "b"]);
    let expected = Dispatch::Send(HttpRequest {
        method: Method::Delete,
        url: "https://api.spotify.com/v1/me/albums".to_string(),
        headers: vec![pair("Authorization", "Bearer access-1"), pair("Content-Type", "application/json")],
        query: vec![],
        body: Some(Body::Json(Json::Object(vec![("ids".to_string(), Json::Array(vec![Json::Text("a".to_string()), Json::Text("b".to_string())]))]))),
        answer: Answer::Nothing,
    });
    assert_eq!(decided, expected);
}

#[test]
fn direct_check_saved_albums() {
    let client = user_client();
    let decided = client.check_saved_albums(NOW, &["a", "b"]);
    let expected = Dispatch::Send(HttpRequest {
        method: Method::Get,
        url: "https://api.spotify.com/v1/me/albums/contains".to_string(),
        headers: vec![pair("Authorization", "Bearer access-1"), pair("Content-Length", "0")],
        query: vec![pair("ids", "a,b")],
        body: None,
        answer: Answer::Document,
    });
    assert_eq!(decided, expected);
}

#[test]
fn direct_save_audiobooks() {
    let client = user_client();
    let decided = client.save_audiobooks(NOW, &["a", "b"]);
    let expected = Dispatch::Send(HttpRequest {
        method: Method::Put,
        url: "https://api.spotify.com/v1/me/audiobooks?ids=a,b".to_string(),
        headers: vec![pair("Authorization", "Bearer access-1"), pair("Content-Length", "0")],
        query: vec![],
        body: None,
        answer: Answer::Nothing,
    });
    assert_eq!(decided, expected);
}

#[test]
fn direct_remove_saved_audiobooks() {
    let client = user_client();
    let decided = client.remove_saved_audiobooks(NOW, &["a", "b"]);
    let expected = Dispatch::Send(HttpRequest {
        method: Method::Delete,
        url: "https://api.spotify.com/v1/me/audiobooks?ids=a,b".to_string(),
        headers: vec![pair("Authorization", "Bearer access-1"), pair("Content-Length", "0")],
        query: vec![],
        body: None,
        answer: Answer::Nothing,
    });
    assert_eq!(decided, expected);
}

#[test]
fn direct_check_saved_audiobooks() {
    let client = user_client();
    let decided = client.check_saved_audiobooks(NOW, &["a", "b"]);
    let expected = Dispatch::Send(HttpRequest {
        method: Method::Get,
        url: "https://api.spotify.com/v1/me/audiobooks/contains".to_string(),
        headers: vec![pair("Authorization", "Bearer access-1"), pair("Content-Length", "0")],
        query: vec![pair("ids", "a,b")],
        body: None,
        answer: Answer::Document,
    });
    assert_eq!(decided, expected);
}

#[test]
fn direct_save_episodes() {
    let client = user_client();
    let decided = client.save_episodes(NOW, &["a", "b"]);
    let expected = Dispatch::Send(HttpRequest {
        method: Method::Put,
        url: "https://api.spotify.com/v1/me/episodes".to_string(),
        headers: vec![pair("Authorization", "Bearer access-1"), pair("Content-Type", "application/json")],
        query: vec![],
        body: Some(Body::Json(Json::Object(vec![("ids".to_string(), Json::Array(vec![Json::Text("a".to_string()), Json::Text("b".to_string())]))]))),
        answer: Answer::Nothing,
    });
    assert_eq!(decided, expected);
}

#[test]
fn direct_remove_saved_episodes() {
    let client = user_client();
    let decided = client.remove_saved_episodes(NOW, &["a", "b"]);
    let expected = Dispatch::Send(HttpRequest {
        method: Method::Delete,
        url: "https://api.spotify.com/v1/me/episodes".to_string(),
        headers: vec![pair("Authorization", "Bearer access-1"), pair("Content-Type", "application/json")],
        query: vec![],
        body: Some(Body::Json(Json::Object(vec![("ids".to_string(), Json::Array(vec![Json::Text("a".to_string()), Json::Text("b".to_string())]))]))),
        answer: Answer::Nothing,
    });
    assert_eq!(decided, expected);
}

#[test]
fn direct_check_saved_episodes() {
    let client = user_client();
    let decided = client.check_saved_episodes(NOW, &["a", "b"]);
    let expected = Dispatch::Send(HttpRequest {
        method: Method::Get,
        url: "https://api.spotify.com/v1/me/episodes/contains?ids=a,b".to_string(),
        headers: vec![pair("Authorization", "Bearer access-1"), pair("Content-Length", "0")],
        query: vec![],
        body: None,
        answer: Answer::Document,
    });
    assert_eq!(decided, expected);
}

#[test]
fn direct_save_shows() {
    let client = user_client();
    let decided = client.save_shows(NOW, &["a", "b"]);
    let expected = Dispatch::Send(HttpRequest {
        method: Method::Put,
        url: "https://api.spotify.com/v1/me/shows".to_string(),
        headers: vec![pair("Authorization", "Bearer access-1"), pair("Content-Type", "application/json")],
        query: vec![],
        body: Some(Body::Json(Json::Object(vec![("ids".to_string(), Json::Array(vec![Json::Text("a".to_string()), Json::Text("b".to_string())]))]))),
        answer: Answer::Nothing,
    });
    assert_eq!(decided, expected);
}

#[test]
fn direct_remove_saved_shows() {
    let client = user_client();
    let decided = client.remove_saved_shows(NOW, &["a", "b"]);
    let expected = Dispatch::Send(HttpRequest {
        method: Method::Delete,
        url: "https://api.spotify.com/v1/me/shows".to_string(),
        headers: vec![pair("Authorization", "Bearer access-1"), pair("Content-Type", "application/json")],
        query: vec![],
        body: Some(Body::Json(Json::Object(vec![("ids".to_string(), Json::Array(vec![Json::Text("a".to_string()), Json::Text("b".to_string())]))]))),
        answer: Answer::Nothing,
    });
    assert_eq!(decided, expected);
}

#[test]
fn direct_check_saved_shows() {
    let client = user_client();
    let decided = client.check_saved_shows(NOW, &["a", "b"]);
    let expected = Dispatch::Send(HttpRequest {
        method: Method::Get,
        url: "https://api.spotify.com/v1/me/shows/contains".to_string(),
        headers: vec![pair("Authorization", "Bearer access-1"), pair("Content-Length", "0")],
        query: vec![pair("ids", "a,b")],
        body: None,
        answer: Answer::Document,
    });
    assert_eq!(decided, expected);
}

#[test]
fn direct_save_tracks() {
    let client = user_client();
    let decided = client.save_tracks(NOW, &["a", "b"]);
    let expected = Dispatch::Send(HttpRequest {
        method: Method::Put,
        url: "https://api.spotify.com/v1/me/tracks".to_string(),
        headers: vec![pair("Authorization", "Bearer access-1"), pair("Content-Type", "application/json")],
        query: vec![],
        body: Some(Body::Json(Json::Object(vec![("ids".to_string(), Json::Array(vec![Json::Text("a".to_string()), Json::Text("b".to_string())]))]))),
        answer: Answer::Nothing,
    });
    assert_eq!(decided, expected);
}

#[test]
fn direct_remove_saved_tracks() {
    let client = user_client();
    let decided = client.remove_saved_tracks(NOW, &["a", "b"]);
    let expected = Dispatch::Send(HttpRequest {
        method: Method::Delete,
        url: "https://api.spotify.com/v1/me/tracks".to_string(),
        headers: vec![pair("Authorization", "Bearer access-1"), pair("Content-Type", "application/json")],
        query: vec![],
        body: Some(Body::Json(Json::Object(vec![("ids".to_string(), Json::Array(vec![Json::Text("a".to_string()), Json::Text("b".to_string())]))]))),
        answer: Answer::Nothing,
    });
    assert_eq!(decided, expected);
}

#[test]
fn direct_check_saved_tracks() {
    let client = user_client();
    let decided = client.check_saved_tracks(NOW, &["a", "b"]);
    let expected = Dispatch::Send(HttpRequest {
        method: Method::Get,
        url: "https://api.spotify.com/v1/me/tracks/contains".to_string(),
        headers: vec![pair("Authorization", "Bearer access-1"), pair("Content-Length", "0")],
        query: vec![pair("ids", "a,b")],
        body: None,
        answer: Answer::Document,
    });
    assert_eq!(decided, expected);
}

#[test]
fn direct_get_current_user_profile() {
    let client = user_client();
    let decided = client.get_current_user_profile(NOW);
    let expected = Dispatch::Send(HttpRequest {
        method: Method::Get,
        url: "https://api.spotify.com/v1/me".to_string(),
        headers: vec![pair("Authorization", "Bearer access-1"), pair("Content-Length", "0")],
        query: vec![],
        body: None,
        answer: Answer::Document,
    });
    assert_eq!(decided, expected);
}

#[test]
fn direct_unfollow_playlist() {
    let client = user_client();
    let decided = client.unfollow_playlist(NOW, "id-1");
    let expected = Dispatch::Send(HttpRequest {
        method: Method::Delete,
        url: "https://api.spotify.com/v1/playlists/id-1/followers".to_string(),
        headers: vec![pair("Authorization", "Bearer access-1"), pair("Content-Length", "0")],
        query: vec![],
        body: None,
        answer: Answer::Nothing,
    });
    assert_eq!(decided, expected);
}

#[test]
fn direct_get_playback_state_with_the_option() {
    let client = user_client();
    let decided = client.get_playback_state(NOW, Some("market-1"));
    let expected = Dispatch::Send(HttpRequest {
        method: Method::Get,
        url: "https://api.spotify.com/v1/me/player".to_string(),
        headers: vec![pair("Authorization", "Bearer access-1"), pair("Content-Length", "0")],
        query: vec![pair("market", "market-1")],
        body: None,
        answer: Answer::Document,
    });
    assert_eq!(decided, expected);
}

#[test]
fn direct_get_playback_state_without_the_option() {
    let client = user_client();
    let decided = client.get_playback_state(NOW, None);
    let expected = Dispatch::Send(HttpRequest {
        method: Method::Get,
        url: "https://api.spotify.com/v1/me/player".to_string(),
        headers: vec![pair("Authorization", "Bearer access-1"), pair("Content-Length", "0")],
        query: vec![],
        body: None,
        answer: Answer::Document,
    });
    assert_eq!(decided, expected);
}

#[test]
fn direct_get_available_devices() {
    let client = user_client();
    let decided = client.get_available_devices(NOW);
    let expected = Dispatch::Send(HttpRequest {
        method: Method::Get,
        url: "https://api.spotify.com/v1/me/player/devices".to_string(),
        headers: vec![pair("Authorization", "Bearer access-1"), pair("Content-Length", "0")],
        query: vec![],
        body: None,
        answer: Answer::Member(Listing::Devices),
    });
    assert_eq!(decided, expected);
}

#[test]
fn direct_get_currently_playing_track_with_the_option() {
    let client = user_client();
    let decided = client.get_currently_playing_track(NOW, Some("market-1"));
    let expected = Dispatch::Send(HttpRequest {
        method: Method::Get,
        url: "https://api.spotify.com/v1/me/player/currently-playing".to_string(),
        headers: vec![pair("Authorization", "Bearer access-1"), pair("Content-Length", "0")],
        query: vec![pair("market", "market-1")],
        body: None,
        answer: Answer::Document,
    });
    assert_eq!(decided, expected);
}

#[test]
fn direct_get_currently_playing_track_without_the_option() {
    let client = user_client();
    let decided = client.get_currently_playing_track(NOW, None);
    let expected = Dispatch::Send(HttpRequest {
        method: Method::Get,
        url: "https://api.spotify.com/v1/me/player/currently-playing".to_string(),
        headers: vec![pair("Authorization", "Bearer access-1"), pair("Content-Length", "0")],
        query: vec![],
        body: None,
        answer: Answer::Document,
    });
    assert_eq!(decided, expected);
}

#[test]
fn direct_pause_playback_with_the_option() {
    let client = user_client();
    let decided = client.pause_playback(NOW, Some("device_id-1"));
    let expected = Dispatch::Send(HttpRequest {
        method: Method::Put,
        url: "https://api.spotify.com/v1/me/player/pause".to_string(),
        headers: vec![pair("Authorization", "Bearer access-1"), pair("Content-Length", "0")],
        query: vec![pair("device_id", "device_id-1")],
        body: None,
        answer: Answer::Nothing,
    });
    assert_eq!(decided, expected);
}

#[test]
fn direct_pause_playback_without_the_option() {
    let client = user_client();
    let decided = client.pause_playback(NOW, None);
    let expected = Dispatch::Send(HttpRequest {
        method: Method::Put,
        url: "https://api.spotify.com/v1/me/player/pause".to_string(),
        headers: vec![pair("Authorization", "Bearer access-1"), pair("Content-Length", "0")],
        query: vec![],
        body: None,
        answer: Answer::Nothing,
    });
    assert_eq!(decided, expected);
}

#[test]
fn direct_skip_to_next_with_the_option() {
    let client = user_client();
    let decided = client.skip_to_next(NOW, Some("device_id-1"));
    let expected = Dispatch::Send(HttpRequest {
        method: Method::Post,
        url: "https://api.spotify.com/v1/me/player/next".to_string(),
        headers: vec![pair("Authorization", "Bearer access-1"), pair("Content-Length", "0")],
        query: vec![pair("device_id", "device_id-1")],
        body: None,
        answer: Answer::Nothing,
    });
    assert_eq!(decided, expected);
}

#[test]
fn direct_skip_to_next_without_the_option() {
    let client = user_client();
    let decided = client.skip_to_next(NOW, None);
    let expected = Dispatch::Send(HttpRequest {
        method: Method::Post,
        url: "https://api.spotify.com/v1/me/player/next".to_string(),
        headers: vec![pair("Authorization", "Bearer access-1"), pair("Content-Length", "0")],
        query: vec![],
        body: None,
        answer: Answer::Nothing,
    });
    assert_eq!(decided, expected);
}

#[test]
fn direct_skip_to_previous_with_the_option() {
    let client = user_client();
    let decided = client.skip_to_previous(NOW, Some("device_id-1"));
    let expected = Dispatch::Send(HttpRequest {
        method: Method::Post,
        url: "https://api.spotify.com/v1/me/player/previous".to_string(),
        headers: vec![pair("Authorization", "Bearer access-1"), pair("Content-Length", "0")],
        query: vec![pair("device_id", "device_id-1")],
        body: None,
        answer: Answer::Nothing,
    });
    assert_eq!(decided, expected);
}

#[test]
fn direct_skip_to_previous_without_the_option() {
    let client = user_client();
    let decided = client.skip_to_previous(NOW, None);
    let expected = Dispatch::Send(HttpRequest {
        method: Method::Post,
        url: "https://api.spotify.com/v1/me/player/previous".to_string(),
        headers: vec![pair("Authorization", "Bearer access-1"), pair("Content-Length", "0")],
        query: vec![],
        body: None,
        answer: Answer::Nothing,
    });
    assert_eq!(decided, expected);
}

#[test]
fn direct_get_user_queue() {
    let client = user_client();
    let decided = client.get_user_queue(NOW);
    let expected = Dispatch::Send(HttpRequest {
        method: Method::Get,
        url: "https://api.spotify.com/v1/me/player/queue".to_string(),
        headers: vec![pair("Authorization", "Bearer access-1"), pair("Content-Length", "0")],
        query: vec![],
        body: None,
        answer: Answer::Document,
    });
    assert_eq!(decided, expected);
}
