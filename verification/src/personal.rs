//! What only a client that acts for a user can ask for: the user's library,
//! follows and playback.

use vstd::prelude::*;

use crate::auth::{AuthFlow, Authorised, Token};
use crate::client::{dispatch_of, Client, Dispatch};
use crate::endpoint::album::SavedAlbumsEndpoint;
use crate::endpoint::audiobook::SavedAudiobooksEndpoint;
use crate::endpoint::player::{
    AddItemToQueueEndpoint, RecentlyPlayedTracksEndpoint, RepeatMode, SeekToPositionEndpoint,
    SetPlaybackVolumeEndpoint, SetRepeatModeEndpoint, StartPlaybackEndpoint,
    ToggleShuffleEndpoint, TransferPlaybackEndpoint,
};
use crate::endpoint::playlist::CurrentUserPlaylistsEndpoint;
use crate::endpoint::show::{SavedEpisodesEndpoint, SavedShowsEndpoint};
use crate::endpoint::track::SavedTracksEndpoint;
use crate::endpoint::user::{
    FollowPlaylistBuilder, FollowUserOrArtistEndpoint, FollowedArtistsBuilder, UserItemType,
    UserTopItemsEndpoint,
};
use crate::endpoint::{optional, required, Builder, Endpoint, Query};
use crate::http::{body_list, list_body, Answer, ApiCallView, Listing, Method};
use crate::text::{
    comma_joined, concat2, concat3, only, owned_list, owned_texts, query_list, slice_view,
    texts,
};

verus! {

impl<F: AuthFlow + Authorised> Client<Token, F> {
    /// The albums in the user's library.
    pub fn saved_albums(&mut self) -> (b: Builder<'_, F, SavedAlbumsEndpoint>)
        ensures
            *b.spotify == *old(self),
            *final(self) == *final(b.spotify),
            b.endpoint.bare(),
    {
        self.builder(SavedAlbumsEndpoint { limit: None, offset: None, market: None })
    }

    /// The audiobooks in the user's library.
    pub fn saved_audiobooks(&mut self) -> (b: Builder<'_, F, SavedAudiobooksEndpoint>)
        ensures
            *b.spotify == *old(self),
            *final(self) == *final(b.spotify),
            b.endpoint.bare(),
    {
        self.builder(SavedAudiobooksEndpoint { limit: None, offset: None })
    }

    /// The episodes in the user's library.
    pub fn saved_episodes(&mut self) -> (b: Builder<'_, F, SavedEpisodesEndpoint>)
        ensures
            *b.spotify == *old(self),
            *final(self) == *final(b.spotify),
            b.endpoint.bare(),
    {
        self.builder(SavedEpisodesEndpoint { market: None, limit: None, offset: None })
    }

    /// The playlists that the user owns or follows.
    pub fn current_user_playlists(&mut self) -> (b: Builder<'_, F, CurrentUserPlaylistsEndpoint>)
        ensures
            *b.spotify == *old(self),
            *final(self) == *final(b.spotify),
            b.endpoint.bare(),
    {
        self.builder(CurrentUserPlaylistsEndpoint { limit: None, offset: None })
    }

    /// The shows in the user's library.
    pub fn saved_shows(&mut self) -> (b: Builder<'_, F, SavedShowsEndpoint>)
        ensures
            *b.spotify == *old(self),
            *final(self) == *final(b.spotify),
            b.endpoint.bare(),
    {
        self.builder(SavedShowsEndpoint { limit: None, offset: None })
    }

    /// The tracks in the user's library.
    pub fn saved_tracks(&mut self) -> (b: Builder<'_, F, SavedTracksEndpoint>)
        ensures
            *b.spotify == *old(self),
            *final(self) == *final(b.spotify),
            b.endpoint.bare(),
    {
        self.builder(SavedTracksEndpoint { market: None, limit: None, offset: None })
    }

    /// The artists or tracks that the user plays most.
    pub fn current_user_top_items(
        &mut self,
        item_type: UserItemType,
    ) -> (b: Builder<'_, F, UserTopItemsEndpoint>)
        ensures
            *b.spotify == *old(self),
            *final(self) == *final(b.spotify),
            b.endpoint.item_type == item_type,
            b.endpoint.bare(),
    {
        self.builder(
            UserTopItemsEndpoint {
                item_type,
                time_range: None,
                limit: None,
                offset: None,
            },
        )
    }

    /// Follows a playlist.
    pub fn follow_playlist(&mut self, id: &str) -> (b: Builder<'_, F, FollowPlaylistBuilder>)
        ensures
            *b.spotify == *old(self),
            *final(self) == *final(b.spotify),
            b.endpoint.id@ == id@,
            b.endpoint.bare(),
    {
        self.builder(FollowPlaylistBuilder { id: id.to_owned(), public: None })
    }

    /// The artists that the user follows.
    pub fn followed_artists(&mut self) -> (b: Builder<'_, F, FollowedArtistsBuilder>)
        ensures
            *b.spotify == *old(self),
            *final(self) == *final(b.spotify),
            b.endpoint.kind@ == "artist"@,
            b.endpoint.bare(),
    {
        self.builder(FollowedArtistsBuilder { kind: "artist".to_owned(), after: None, limit: None })
    }

    /// Follows artists, by their ids.
    pub fn follow_artists(
        &mut self,
        ids: &[&str],
    ) -> (b: Builder<'_, F, FollowUserOrArtistEndpoint>)
        ensures
            *b.spotify == *old(self),
            *final(self) == *final(b.spotify),
            b.endpoint.kind@ == "artist"@,
            owned_texts(b.endpoint.ids@) == texts(ids@),
            b.endpoint.bare(),
    {
        self.builder(FollowUserOrArtistEndpoint { kind: "artist".to_owned(), ids: owned_list(ids) })
    }

    /// Follows users, by their ids.
    pub fn follow_users(&mut self, ids: &[&str]) -> (b: Builder<'_, F, FollowUserOrArtistEndpoint>)
        ensures
            *b.spotify == *old(self),
            *final(self) == *final(b.spotify),
            b.endpoint.kind@ == "user"@,
            owned_texts(b.endpoint.ids@) == texts(ids@),
            b.endpoint.bare(),
    {
        self.builder(FollowUserOrArtistEndpoint { kind: "user".to_owned(), ids: owned_list(ids) })
    }

    /// Moves playback to another device.
    pub fn transfer_playback(
        &mut self,
        device_id: &str,
    ) -> (b: Builder<'_, F, TransferPlaybackEndpoint>)
        ensures
            *b.spotify == *old(self),
            *final(self) == *final(b.spotify),
            owned_texts(b.endpoint.device_ids@) == seq![device_id@],
            b.endpoint.bare(),
    {
        self.builder(TransferPlaybackEndpoint { device_ids: only(device_id), play: None })
    }

    /// Starts or resumes playback.
    pub fn start_playback(&mut self) -> (b: Builder<'_, F, StartPlaybackEndpoint>)
        ensures
            *b.spotify == *old(self),
            *final(self) == *final(b.spotify),
            b.endpoint.bare(),
    {
        self.builder(
            StartPlaybackEndpoint {
                device_id: None,
                context_uri: None,
                uris: None,
                offset: None,
                position_ms: None,
            },
        )
    }

    /// Moves to a position in what is playing, in milliseconds.
    pub fn seek_to_position(&mut self, position: u32) -> (b: Builder<'_, F, SeekToPositionEndpoint>)
        ensures
            *b.spotify == *old(self),
            *final(self) == *final(b.spotify),
            b.endpoint.position_ms == position,
            b.endpoint.bare(),
    {
        self.builder(SeekToPositionEndpoint { position_ms: position, device_id: None })
    }

    /// Sets what is repeated.
    ///
    /// Upstream is known to answer this with an error of its own; the answer is
    /// handed on as it comes.
    pub fn set_repeat_mode(
        &mut self,
        repeat_mode: RepeatMode,
    ) -> (b: Builder<'_, F, SetRepeatModeEndpoint>)
        ensures
            *b.spotify == *old(self),
            *final(self) == *final(b.spotify),
            b.endpoint.state == repeat_mode,
            b.endpoint.bare(),
    {
        self.builder(SetRepeatModeEndpoint { state: repeat_mode, device_id: None })
    }

    /// Sets the volume, in percent.
    pub fn set_playback_volume(
        &mut self,
        volume: u32,
    ) -> (b: Builder<'_, F, SetPlaybackVolumeEndpoint>)
        ensures
            *b.spotify == *old(self),
            *final(self) == *final(b.spotify),
            b.endpoint.volume_percent == volume,
            b.endpoint.bare(),
    {
        self.builder(SetPlaybackVolumeEndpoint { volume_percent: volume, device_id: None })
    }

    /// Turns shuffle on or off.
    ///
    /// Upstream is known to answer this with an error of its own; the answer is
    /// handed on as it comes.
    pub fn toggle_playback_shuffle(
        &mut self,
        shuffle: bool,
    ) -> (b: Builder<'_, F, ToggleShuffleEndpoint>)
        ensures
            *b.spotify == *old(self),
            *final(self) == *final(b.spotify),
            b.endpoint.state == shuffle,
            b.endpoint.bare(),
    {
        self.builder(ToggleShuffleEndpoint { state: shuffle, device_id: None })
    }

    /// The tracks that the user played of late.
    pub fn recently_played_tracks(&mut self) -> (b: Builder<'_, F, RecentlyPlayedTracksEndpoint>)
        ensures
            *b.spotify == *old(self),
            *final(self) == *final(b.spotify),
            b.endpoint.bare(),
    {
        self.builder(RecentlyPlayedTracksEndpoint { limit: None, after: None, before: None })
    }

    /// Puts a track or an episode at the end of the queue.
    pub fn add_item_to_queue(&mut self, uri: &str) -> (b: Builder<'_, F, AddItemToQueueEndpoint>)
        ensures
            *b.spotify == *old(self),
            *final(self) == *final(b.spotify),
            b.endpoint.uri@ == uri@,
            b.endpoint.bare(),
    {
        self.builder(AddItemToQueueEndpoint { uri: uri.to_owned(), device_id: None })
    }

    /// Puts albums into the user's library.
    pub fn save_albums(&self, now: u64, ids: &[&str]) -> (r: Dispatch)
        ensures
            r@ == dispatch_of(
                self.state()@,
                self.refreshes(),
                now,
                ApiCallView {
                    method: Method::Put,
                    path: "/me/albums"@,
                    query: Seq::empty(),
                    body: Some(list_body("ids"@, texts(ids@))),
                    answer: Answer::Nothing,
                },
            ),
    {
        self.put(now, "/me/albums".to_owned(), Some(body_list("ids", ids)), Answer::Nothing)
    }

    /// Takes albums out of the user's library.
    pub fn remove_saved_albums(&self, now: u64, ids: &[&str]) -> (r: Dispatch)
        ensures
            r@ == dispatch_of(
                self.state()@,
                self.refreshes(),
                now,
                ApiCallView {
                    method: Method::Delete,
                    path: "/me/albums"@,
                    query: Seq::empty(),
                    body: Some(list_body("ids"@, texts(ids@))),
                    answer: Answer::Nothing,
                },
            ),
    {
        self.delete(now, "/me/albums".to_owned(), Some(body_list("ids", ids)), Answer::Nothing)
    }

    /// Whether the albums are in the user's library, album by album.
    pub fn check_saved_albums(&self, now: u64, ids: &[&str]) -> (r: Dispatch)
        ensures
            r@ == dispatch_of(
                self.state()@,
                self.refreshes(),
                now,
                ApiCallView {
                    method: Method::Get,
                    path: "/me/albums/contains"@,
                    query: required("ids"@, comma_joined(texts(ids@))),
                    body: None,
                    answer: Answer::Document,
                },
            ),
    {
        let mut query = Query::new();
        query.text("ids", query_list(ids).as_str());
        assert(query@ =~= required("ids"@, comma_joined(texts(ids@))));
        self.get(now, "/me/albums/contains".to_owned(), Some(query.pairs), Answer::Document)
    }

    /// Puts audiobooks into the user's library. The ids travel in the path's own
    /// query, and no body is sent.
    pub fn save_audiobooks(&self, now: u64, ids: &[&str]) -> (r: Dispatch)
        ensures
            r@ == dispatch_of(
                self.state()@,
                self.refreshes(),
                now,
                ApiCallView {
                    method: Method::Put,
                    path: "/me/audiobooks?ids="@ + comma_joined(texts(ids@)),
                    query: Seq::empty(),
                    body: None,
                    answer: Answer::Nothing,
                },
            ),
    {
        let joined = query_list(ids);
        self.put(now, concat2("/me/audiobooks?ids=", joined.as_str()), None, Answer::Nothing)
    }

    /// Takes audiobooks out of the user's library. The ids travel in the path's
    /// own query, and no body is sent.
    pub fn remove_saved_audiobooks(&self, now: u64, ids: &[&str]) -> (r: Dispatch)
        ensures
            r@ == dispatch_of(
                self.state()@,
                self.refreshes(),
                now,
                ApiCallView {
                    method: Method::Delete,
                    path: "/me/audiobooks?ids="@ + comma_joined(texts(ids@)),
                    query: Seq::empty(),
                    body: None,
                    answer: Answer::Nothing,
                },
            ),
    {
        let joined = query_list(ids);
        self.delete(now, concat2("/me/audiobooks?ids=", joined.as_str()), None, Answer::Nothing)
    }

    /// Whether the audiobooks are in the user's library, one by one.
    pub fn check_saved_audiobooks(&self, now: u64, ids: &[&str]) -> (r: Dispatch)
        ensures
            r@ == dispatch_of(
                self.state()@,
                self.refreshes(),
                now,
                ApiCallView {
                    method: Method::Get,
                    path: "/me/audiobooks/contains"@,
                    query: required("ids"@, comma_joined(texts(ids@))),
                    body: None,
                    answer: Answer::Document,
                },
            ),
    {
        let mut query = Query::new();
        query.text("ids", query_list(ids).as_str());
        assert(query@ =~= required("ids"@, comma_joined(texts(ids@))));
        self.get(now, "/me/audiobooks/contains".to_owned(), Some(query.pairs), Answer::Document)
    }

    /// Puts episodes into the user's library.
    pub fn save_episodes(&self, now: u64, ids: &[&str]) -> (r: Dispatch)
        ensures
            r@ == dispatch_of(
                self.state()@,
                self.refreshes(),
                now,
                ApiCallView {
                    method: Method::Put,
                    path: "/me/episodes"@,
                    query: Seq::empty(),
                    body: Some(list_body("ids"@, texts(ids@))),
                    answer: Answer::Nothing,
                },
            ),
    {
        self.put(now, "/me/episodes".to_owned(), Some(body_list("ids", ids)), Answer::Nothing)
    }

    /// Takes episodes out of the user's library.
    pub fn remove_saved_episodes(&self, now: u64, ids: &[&str]) -> (r: Dispatch)
        ensures
            r@ == dispatch_of(
                self.state()@,
                self.refreshes(),
                now,
                ApiCallView {
                    method: Method::Delete,
                    path: "/me/episodes"@,
                    query: Seq::empty(),
                    body: Some(list_body("ids"@, texts(ids@))),
                    answer: Answer::Nothing,
                },
            ),
    {
        self.delete(now, "/me/episodes".to_owned(), Some(body_list("ids", ids)), Answer::Nothing)
    }

    /// Whether the episodes are in the user's library, one by one. The ids travel
    /// in the path's own query.
    pub fn check_saved_episodes(&self, now: u64, ids: &[&str]) -> (r: Dispatch)
        ensures
            r@ == dispatch_of(
                self.state()@,
                self.refreshes(),
                now,
                ApiCallView {
                    method: Method::Get,
                    path: "/me/episodes/contains?ids="@ + comma_joined(texts(ids@)),
                    query: Seq::empty(),
                    body: None,
                    answer: Answer::Document,
                },
            ),
    {
        let joined = query_list(ids);
        self.get(
            now,
            concat2("/me/episodes/contains?ids=", joined.as_str()),
            None,
            Answer::Document,
        )
    }

    /// Puts shows into the user's library.
    pub fn save_shows(&self, now: u64, ids: &[&str]) -> (r: Dispatch)
        ensures
            r@ == dispatch_of(
                self.state()@,
                self.refreshes(),
                now,
                ApiCallView {
                    method: Method::Put,
                    path: "/me/shows"@,
                    query: Seq::empty(),
                    body: Some(list_body("ids"@, texts(ids@))),
                    answer: Answer::Nothing,
                },
            ),
    {
        self.put(now, "/me/shows".to_owned(), Some(body_list("ids", ids)), Answer::Nothing)
    }

    /// Takes shows out of the user's library.
    pub fn remove_saved_shows(&self, now: u64, ids: &[&str]) -> (r: Dispatch)
        ensures
            r@ == dispatch_of(
                self.state()@,
                self.refreshes(),
                now,
                ApiCallView {
                    method: Method::Delete,
                    path: "/me/shows"@,
                    query: Seq::empty(),
                    body: Some(list_body("ids"@, texts(ids@))),
                    answer: Answer::Nothing,
                },
            ),
    {
        self.delete(now, "/me/shows".to_owned(), Some(body_list("ids", ids)), Answer::Nothing)
    }

    /// Whether the shows are in the user's library, one by one.
    pub fn check_saved_shows(&self, now: u64, ids: &[&str]) -> (r: Dispatch)
        ensures
            r@ == dispatch_of(
                self.state()@,
                self.refreshes(),
                now,
                ApiCallView {
                    method: Method::Get,
                    path: "/me/shows/contains"@,
                    query: required("ids"@, comma_joined(texts(ids@))),
                    body: None,
                    answer: Answer::Document,
                },
            ),
    {
        let mut query = Query::new();
        query.text("ids", query_list(ids).as_str());
        assert(query@ =~= required("ids"@, comma_joined(texts(ids@))));
        self.get(now, "/me/shows/contains".to_owned(), Some(query.pairs), Answer::Document)
    }

    /// Puts tracks into the user's library.
    pub fn save_tracks(&self, now: u64, ids: &[&str]) -> (r: Dispatch)
        ensures
            r@ == dispatch_of(
                self.state()@,
                self.refreshes(),
                now,
                ApiCallView {
                    method: Method::Put,
                    path: "/me/tracks"@,
                    query: Seq::empty(),
                    body: Some(list_body("ids"@, texts(ids@))),
                    answer: Answer::Nothing,
                },
            ),
    {
        self.put(now, "/me/tracks".to_owned(), Some(body_list("ids", ids)), Answer::Nothing)
    }

    /// Takes tracks out of the user's library.
    pub fn remove_saved_tracks(&self, now: u64, ids: &[&str]) -> (r: Dispatch)
        ensures
            r@ == dispatch_of(
                self.state()@,
                self.refreshes(),
                now,
                ApiCallView {
                    method: Method::Delete,
                    path: "/me/tracks"@,
                    query: Seq::empty(),
                    body: Some(list_body("ids"@, texts(ids@))),
                    answer: Answer::Nothing,
                },
            ),
    {
        self.delete(now, "/me/tracks".to_owned(), Some(body_list("ids", ids)), Answer::Nothing)
    }

    /// Whether the tracks are in the user's library, one by one.
    pub fn check_saved_tracks(&self, now: u64, ids: &[&str]) -> (r: Dispatch)
        ensures
            r@ == dispatch_of(
                self.state()@,
                self.refreshes(),
                now,
                ApiCallView {
                    method: Method::Get,
                    path: "/me/tracks/contains"@,
                    query: required("ids"@, comma_joined(texts(ids@))),
                    body: None,
                    answer: Answer::Document,
                },
            ),
    {
        let mut query = Query::new();
        query.text("ids", query_list(ids).as_str());
        assert(query@ =~= required("ids"@, comma_joined(texts(ids@))));
        self.get(now, "/me/tracks/contains".to_owned(), Some(query.pairs), Answer::Document)
    }

    /// The profile of the user.
    pub fn get_current_user_profile(&self, now: u64) -> (r: Dispatch)
        ensures
            r@ == dispatch_of(
                self.state()@,
                self.refreshes(),
                now,
                ApiCallView {
                    method: Method::Get,
                    path: "/me"@,
                    query: Seq::empty(),
                    body: None,
                    answer: Answer::Document,
                },
            ),
    {
        self.get(now, "/me".to_owned(), None, Answer::Document)
    }

    /// Stops following a playlist.
    pub fn unfollow_playlist(&self, now: u64, id: &str) -> (r: Dispatch)
        ensures
            r@ == dispatch_of(
                self.state()@,
                self.refreshes(),
                now,
                ApiCallView {
                    method: Method::Delete,
                    path: "/playlists/"@ + id@ + "/followers"@,
                    query: Seq::empty(),
                    body: None,
                    answer: Answer::Nothing,
                },
            ),
    {
        self.delete(now, concat3("/playlists/", id, "/followers"), None, Answer::Nothing)
    }

    /// What is playing, and where.
    pub fn get_playback_state(&self, now: u64, market: Option<&str>) -> (r: Dispatch)
        ensures
            r@ == dispatch_of(
                self.state()@,
                self.refreshes(),
                now,
                ApiCallView {
                    method: Method::Get,
                    path: "/me/player"@,
                    query: optional("market"@, slice_view(market)),
                    body: None,
                    answer: Answer::Document,
                },
            ),
    {
        let mut query = Query::new();
        match market {
            Some(chosen) => {
                query.text("market", chosen);
            },
            None => {},
        }
        assert(query@ =~= optional("market"@, slice_view(market)));
        self.get(now, "/me/player".to_owned(), Some(query.pairs), Answer::Document)
    }

    /// The devices that the user can play on. The answer wraps the list.
    pub fn get_available_devices(&self, now: u64) -> (r: Dispatch)
        ensures
            r@ == dispatch_of(
                self.state()@,
                self.refreshes(),
                now,
                ApiCallView {
                    method: Method::Get,
                    path: "/me/player/devices"@,
                    query: Seq::empty(),
                    body: None,
                    answer: Answer::Member(Listing::Devices),
                },
            ),
    {
        self.get(now, "/me/player/devices".to_owned(), None, Answer::Member(Listing::Devices))
    }

    /// The track that is playing.
    pub fn get_currently_playing_track(&self, now: u64, market: Option<&str>) -> (r: Dispatch)
        ensures
            r@ == dispatch_of(
                self.state()@,
                self.refreshes(),
                now,
                ApiCallView {
                    method: Method::Get,
                    path: "/me/player/currently-playing"@,
                    query: optional("market"@, slice_view(market)),
                    body: None,
                    answer: Answer::Document,
                },
            ),
    {
        let mut query = Query::new();
        match market {
            Some(chosen) => {
                query.text("market", chosen);
            },
            None => {},
        }
        assert(query@ =~= optional("market"@, slice_view(market)));
        self.get(
            now,
            "/me/player/currently-playing".to_owned(),
            Some(query.pairs),
            Answer::Document,
        )
    }

    /// Pauses playback.
    pub fn pause_playback(&self, now: u64, device_id: Option<&str>) -> (r: Dispatch)
        ensures
            r@ == dispatch_of(
                self.state()@,
                self.refreshes(),
                now,
                ApiCallView {
                    method: Method::Put,
                    path: "/me/player/pause"@,
                    query: optional("device_id"@, slice_view(device_id)),
                    body: None,
                    answer: Answer::Nothing,
                },
            ),
    {
        let mut query = Query::new();
        match device_id {
            Some(chosen) => {
                query.text("device_id", chosen);
            },
            None => {},
        }
        assert(query@ =~= optional("device_id"@, slice_view(device_id)));
        self.request(
            now,
            Method::Put,
            "/me/player/pause".to_owned(),
            Some(query.pairs),
            None,
            Answer::Nothing,
        )
    }

    /// Skips to the next item of the queue.
    pub fn skip_to_next(&self, now: u64, device_id: Option<&str>) -> (r: Dispatch)
        ensures
            r@ == dispatch_of(
                self.state()@,
                self.refreshes(),
                now,
                ApiCallView {
                    method: Method::Post,
                    path: "/me/player/next"@,
                    query: optional("device_id"@, slice_view(device_id)),
                    body: None,
                    answer: Answer::Nothing,
                },
            ),
    {
        let mut query = Query::new();
        match device_id {
            Some(chosen) => {
                query.text("device_id", chosen);
            },
            None => {},
        }
        assert(query@ =~= optional("device_id"@, slice_view(device_id)));
        self.request(
            now,
            Method::Post,
            "/me/player/next".to_owned(),
            Some(query.pairs),
            None,
            Answer::Nothing,
        )
    }

    /// Skips to the item before.
    pub fn skip_to_previous(&self, now: u64, device_id: Option<&str>) -> (r: Dispatch)
        ensures
            r@ == dispatch_of(
                self.state()@,
                self.refreshes(),
                now,
                ApiCallView {
                    method: Method::Post,
                    path: "/me/player/previous"@,
                    query: optional("device_id"@, slice_view(device_id)),
                    body: None,
                    answer: Answer::Nothing,
                },
            ),
    {
        let mut query = Query::new();
        match device_id {
            Some(chosen) => {
                query.text("device_id", chosen);
            },
            None => {},
        }
        assert(query@ =~= optional("device_id"@, slice_view(device_id)));
        self.request(
            now,
            Method::Post,
            "/me/player/previous".to_owned(),
            Some(query.pairs),
            None,
            Answer::Nothing,
        )
    }

    /// The queue of the user.
    pub fn get_user_queue(&self, now: u64) -> (r: Dispatch)
        ensures
            r@ == dispatch_of(
                self.state()@,
                self.refreshes(),
                now,
                ApiCallView {
                    method: Method::Get,
                    path: "/me/player/queue"@,
                    query: Seq::empty(),
                    body: None,
                    answer: Answer::Document,
                },
            ),
    {
        self.get(now, "/me/player/queue".to_owned(), None, Answer::Document)
    }
}

} // verus!
