//! What every authenticated client can ask for: the catalogue.

use std::marker::PhantomData;

use vstd::prelude::*;
use vstd::string::StrSliceExecFns;
use vstd::utf8::encode_utf8;

use crate::auth::{text_view, AuthFlow, Token};
use crate::client::{dispatch_of, Client, Dispatch};
use crate::encoding::{base64_standard, encodable, encode_standard};
use crate::endpoint::album::{
    AlbumEndpoint, AlbumTracksEndpoint, AlbumsEndpoint, NewReleasesEndpoint,
};
use crate::endpoint::artist::ArtistEndpoint;
use crate::endpoint::audiobook::{
    AudiobookChaptersEndpoint, AudiobookEndpoint, AudiobooksEndpoint, ChapterEndpoint,
    ChaptersEndpoint,
};
use crate::endpoint::category::{BrowseCategoriesEndpoint, BrowseCategoryEndpoint};
use crate::endpoint::playlist::{
    AddPlaylistItemsEndpoint, CategoryPlaylistsEndpoint, ChangePlaylistDetailsEndpoint,
    CreatePlaylistEndpoint, FeaturedPlaylistsEndpoint, PlaylistEndpoint, PlaylistItemsEndpoint,
    RemovePlaylistItemsEndpoint, UpdatePlaylistItemsEndpoint, UserPlaylistsEndpoint,
};
use crate::endpoint::search::{item_list, item_names, Item, SearchEndpoint};
use crate::endpoint::show::{
    EpisodeEndpoint, EpisodesEndpoint, ShowEndpoint, ShowEpisodesEndpoint, ShowsEndpoint,
};
use crate::endpoint::track::{
    RecommendationsEndpoint, Seed, SeedType, TrackEndpoint, TracksEndpoint,
};
use crate::endpoint::{required, Builder, Endpoint, Query};
use crate::http::{Answer, ApiCallView, Body, BodyView, Listing, Method};
use crate::text::{comma_joined, concat2, concat3, owned_list, owned_texts, query_list, texts};

verus! {

impl<F: AuthFlow> Client<Token, F> {
    /// One album, by its id.
    pub fn album(&mut self, id: &str) -> (b: Builder<'_, F, AlbumEndpoint>)
        ensures
            *b.spotify == *old(self),
            *final(self) == *final(b.spotify),
            b.endpoint.id@ == id@,
            b.endpoint.bare(),
    {
        self.builder(AlbumEndpoint { id: id.to_owned(), market: None })
    }

    /// Several albums, by their ids.
    pub fn albums(&mut self, ids: &[&str]) -> (b: Builder<'_, F, AlbumsEndpoint>)
        ensures
            *b.spotify == *old(self),
            *final(self) == *final(b.spotify),
            b.endpoint.ids@ == comma_joined(texts(ids@)),
            b.endpoint.bare(),
    {
        self.builder(AlbumsEndpoint { ids: query_list(ids), market: None })
    }

    /// The tracks of an album.
    pub fn album_tracks(&mut self, album_id: &str) -> (b: Builder<'_, F, AlbumTracksEndpoint>)
        ensures
            *b.spotify == *old(self),
            *final(self) == *final(b.spotify),
            b.endpoint.id@ == album_id@,
            b.endpoint.bare(),
    {
        self.builder(
            AlbumTracksEndpoint {
                id: album_id.to_owned(),
                market: None,
                limit: None,
                offset: None,
            },
        )
    }

    /// The albums that were released of late.
    pub fn new_releases(&mut self) -> (b: Builder<'_, F, NewReleasesEndpoint>)
        ensures
            *b.spotify == *old(self),
            *final(self) == *final(b.spotify),
            b.endpoint.bare(),
    {
        self.builder(NewReleasesEndpoint { country: None, limit: None, offset: None })
    }

    /// One artist, by its id.
    pub fn artist(&mut self, id: &str) -> (b: Builder<'_, F, ArtistEndpoint>)
        ensures
            *b.spotify == *old(self),
            *final(self) == *final(b.spotify),
            b.endpoint.id@ == id@,
            b.endpoint.bare(),
    {
        self.builder(ArtistEndpoint { id: id.to_owned() })
    }

    /// One audiobook, by its id.
    pub fn audiobook(&mut self, id: &str) -> (b: Builder<'_, F, AudiobookEndpoint>)
        ensures
            *b.spotify == *old(self),
            *final(self) == *final(b.spotify),
            b.endpoint.id@ == id@,
            b.endpoint.bare(),
    {
        self.builder(AudiobookEndpoint { id: id.to_owned(), market: None })
    }

    /// Several audiobooks, by their ids.
    pub fn audiobooks(&mut self, ids: &[&str]) -> (b: Builder<'_, F, AudiobooksEndpoint>)
        ensures
            *b.spotify == *old(self),
            *final(self) == *final(b.spotify),
            b.endpoint.ids@ == comma_joined(texts(ids@)),
            b.endpoint.bare(),
    {
        self.builder(AudiobooksEndpoint { ids: query_list(ids), market: None })
    }

    /// The chapters of an audiobook.
    pub fn audiobook_chapters(
        &mut self,
        audiobook_id: &str,
    ) -> (b: Builder<'_, F, AudiobookChaptersEndpoint>)
        ensures
            *b.spotify == *old(self),
            *final(self) == *final(b.spotify),
            b.endpoint.id@ == audiobook_id@,
            b.endpoint.bare(),
    {
        self.builder(
            AudiobookChaptersEndpoint {
                id: audiobook_id.to_owned(),
                market: None,
                limit: None,
                offset: None,
            },
        )
    }

    /// One category, by its id.
    pub fn browse_category(&mut self, id: &str) -> (b: Builder<'_, F, BrowseCategoryEndpoint>)
        ensures
            *b.spotify == *old(self),
            *final(self) == *final(b.spotify),
            b.endpoint.id@ == id@,
            b.endpoint.bare(),
    {
        self.builder(BrowseCategoryEndpoint { id: id.to_owned(), country: None, locale: None })
    }

    /// The categories that items are tagged with.
    pub fn browse_categories(&mut self) -> (b: Builder<'_, F, BrowseCategoriesEndpoint>)
        ensures
            *b.spotify == *old(self),
            *final(self) == *final(b.spotify),
            b.endpoint.bare(),
    {
        self.builder(
            BrowseCategoriesEndpoint {
                country: None,
                locale: None,
                limit: None,
                offset: None,
            },
        )
    }

    /// One chapter, by its id.
    ///
    /// Upstream is known to answer this with an error of its own; the answer is
    /// handed on as it comes.
    pub fn chapter(&mut self, id: &str) -> (b: Builder<'_, F, ChapterEndpoint>)
        ensures
            *b.spotify == *old(self),
            *final(self) == *final(b.spotify),
            b.endpoint.id@ == id@,
            b.endpoint.bare(),
    {
        self.builder(ChapterEndpoint { id: id.to_owned(), market: None })
    }

    /// Several chapters, by their ids.
    ///
    /// Upstream is known to answer this with an error of its own; the answer is
    /// handed on as it comes.
    pub fn chapters(&mut self, ids: &[&str]) -> (b: Builder<'_, F, ChaptersEndpoint>)
        ensures
            *b.spotify == *old(self),
            *final(self) == *final(b.spotify),
            b.endpoint.ids@ == comma_joined(texts(ids@)),
            b.endpoint.bare(),
    {
        self.builder(ChaptersEndpoint { ids: query_list(ids), market: None })
    }

    /// One episode, by its id.
    pub fn episode(&mut self, id: &str) -> (b: Builder<'_, F, EpisodeEndpoint>)
        ensures
            *b.spotify == *old(self),
            *final(self) == *final(b.spotify),
            b.endpoint.id@ == id@,
            b.endpoint.bare(),
    {
        self.builder(EpisodeEndpoint { id: id.to_owned(), market: None })
    }

    /// Several episodes, by their ids.
    pub fn episodes(&mut self, ids: &[&str]) -> (b: Builder<'_, F, EpisodesEndpoint>)
        ensures
            *b.spotify == *old(self),
            *final(self) == *final(b.spotify),
            b.endpoint.ids@ == comma_joined(texts(ids@)),
            b.endpoint.bare(),
    {
        self.builder(EpisodesEndpoint { ids: query_list(ids), market: None })
    }

    /// One playlist, by its id.
    pub fn playlist(&mut self, id: &str) -> (b: Builder<'_, F, PlaylistEndpoint>)
        ensures
            *b.spotify == *old(self),
            *final(self) == *final(b.spotify),
            b.endpoint.id@ == id@,
            b.endpoint.bare(),
    {
        self.builder(
            PlaylistEndpoint {
                id: id.to_owned(),
                market: None,
                fields: None,
                additional_types: None,
            },
        )
    }

    /// Changes a playlist's name and visibility.
    pub fn change_playlist_details(
        &mut self,
        id: &str,
    ) -> (b: Builder<'_, F, ChangePlaylistDetailsEndpoint>)
        ensures
            *b.spotify == *old(self),
            *final(self) == *final(b.spotify),
            b.endpoint.id@ == id@,
            b.endpoint.bare(),
    {
        self.builder(
            ChangePlaylistDetailsEndpoint {
                id: id.to_owned(),
                name: None,
                public: None,
                collaborative: None,
                description: None,
            },
        )
    }

    /// The items of a playlist.
    pub fn playlist_items(&mut self, id: &str) -> (b: Builder<'_, F, PlaylistItemsEndpoint>)
        ensures
            *b.spotify == *old(self),
            *final(self) == *final(b.spotify),
            b.endpoint.id@ == id@,
            b.endpoint.bare(),
    {
        self.builder(
            PlaylistItemsEndpoint {
                id: id.to_owned(),
                market: None,
                fields: None,
                limit: None,
                offset: None,
                additional_types: None,
            },
        )
    }

    /// Moves the items that start at `range_start` to stand before
    /// `insert_before`, or replaces the items.
    pub fn update_playlist_items(
        &mut self,
        id: &str,
        range_start: u32,
        insert_before: u32,
    ) -> (b: Builder<'_, F, UpdatePlaylistItemsEndpoint>)
        ensures
            *b.spotify == *old(self),
            *final(self) == *final(b.spotify),
            b.endpoint.id@ == id@,
            b.endpoint.range_start == range_start,
            b.endpoint.insert_before == insert_before,
            b.endpoint.bare(),
    {
        self.builder(
            UpdatePlaylistItemsEndpoint {
                id: id.to_owned(),
                range_start,
                insert_before,
                uris: None,
                range_length: None,
                snapshot_id: None,
            },
        )
    }

    /// Adds items to a playlist, by their URIs.
    pub fn add_items_to_playlist(
        &mut self,
        id: &str,
        item_uris: &[&str],
    ) -> (b: Builder<'_, F, AddPlaylistItemsEndpoint>)
        ensures
            *b.spotify == *old(self),
            *final(self) == *final(b.spotify),
            b.endpoint.id@ == id@,
            owned_texts(b.endpoint.uris@) == texts(item_uris@),
            b.endpoint.bare(),
    {
        self.builder(
            AddPlaylistItemsEndpoint {
                id: id.to_owned(),
                uris: owned_list(item_uris),
                position: None,
            },
        )
    }

    /// Removes items from a playlist, by their URIs.
    pub fn remove_playlist_items(
        &mut self,
        id: &str,
        item_uris: &[&str],
    ) -> (b: Builder<'_, F, RemovePlaylistItemsEndpoint>)
        ensures
            *b.spotify == *old(self),
            *final(self) == *final(b.spotify),
            b.endpoint.id@ == id@,
            owned_texts(b.endpoint.tracks@) == texts(item_uris@),
            b.endpoint.bare(),
    {
        self.builder(
            RemovePlaylistItemsEndpoint {
                id: id.to_owned(),
                tracks: owned_list(item_uris),
                snapshot_id: None,
            },
        )
    }

    /// The playlists of a user.
    pub fn user_playlists(&mut self, user_id: &str) -> (b: Builder<'_, F, UserPlaylistsEndpoint>)
        ensures
            *b.spotify == *old(self),
            *final(self) == *final(b.spotify),
            b.endpoint.id@ == user_id@,
            b.endpoint.bare(),
    {
        self.builder(UserPlaylistsEndpoint { id: user_id.to_owned(), limit: None, offset: None })
    }

    /// Makes an empty playlist for a user.
    pub fn create_playlist(
        &mut self,
        user_id: &str,
        name: &str,
    ) -> (b: Builder<'_, F, CreatePlaylistEndpoint>)
        ensures
            *b.spotify == *old(self),
            *final(self) == *final(b.spotify),
            b.endpoint.user_id@ == user_id@,
            b.endpoint.name@ == name@,
            b.endpoint.bare(),
    {
        self.builder(
            CreatePlaylistEndpoint {
                user_id: user_id.to_owned(),
                name: name.to_owned(),
                public: None,
                collaborative: None,
                description: None,
            },
        )
    }

    /// The playlists that are featured.
    pub fn featured_playlists(&mut self) -> (b: Builder<'_, F, FeaturedPlaylistsEndpoint>)
        ensures
            *b.spotify == *old(self),
            *final(self) == *final(b.spotify),
            b.endpoint.bare(),
    {
        self.builder(
            FeaturedPlaylistsEndpoint {
                country: None,
                locale: None,
                timestamp: None,
                limit: None,
                offset: None,
            },
        )
    }

    /// The playlists of a category.
    pub fn category_playlists(
        &mut self,
        category_id: &str,
    ) -> (b: Builder<'_, F, CategoryPlaylistsEndpoint>)
        ensures
            *b.spotify == *old(self),
            *final(self) == *final(b.spotify),
            b.endpoint.id@ == category_id@,
            b.endpoint.bare(),
    {
        self.builder(
            CategoryPlaylistsEndpoint {
                id: category_id.to_owned(),
                country: None,
                limit: None,
                offset: None,
            },
        )
    }

    /// Searches the catalogue for items of the given kinds.
    pub fn search(
        &mut self,
        query: &str,
        item_types: &[Item],
    ) -> (b: Builder<'_, F, SearchEndpoint>)
        ensures
            *b.spotify == *old(self),
            *final(self) == *final(b.spotify),
            b.endpoint.query@ == query@,
            b.endpoint.item_types@ == comma_joined(item_names(item_types@)),
            b.endpoint.bare(),
    {
        self.builder(
            SearchEndpoint {
                query: query.to_owned(),
                item_types: item_list(item_types),
                market: None,
                limit: None,
                offset: None,
                include_external: None,
            },
        )
    }

    /// One show, by its id.
    pub fn show(&mut self, id: &str) -> (b: Builder<'_, F, ShowEndpoint>)
        ensures
            *b.spotify == *old(self),
            *final(self) == *final(b.spotify),
            b.endpoint.id@ == id@,
            b.endpoint.bare(),
    {
        self.builder(ShowEndpoint { id: id.to_owned(), market: None })
    }

    /// Several shows, by their ids.
    pub fn shows(&mut self, ids: &[&str]) -> (b: Builder<'_, F, ShowsEndpoint>)
        ensures
            *b.spotify == *old(self),
            *final(self) == *final(b.spotify),
            b.endpoint.ids@ == comma_joined(texts(ids@)),
            b.endpoint.bare(),
    {
        self.builder(ShowsEndpoint { ids: query_list(ids), market: None })
    }

    /// The episodes of a show.
    pub fn show_episodes(&mut self, show_id: &str) -> (b: Builder<'_, F, ShowEpisodesEndpoint>)
        ensures
            *b.spotify == *old(self),
            *final(self) == *final(b.spotify),
            b.endpoint.show_id@ == show_id@,
            b.endpoint.bare(),
    {
        self.builder(
            ShowEpisodesEndpoint {
                show_id: show_id.to_owned(),
                market: None,
                limit: None,
                offset: None,
            },
        )
    }

    /// One track, by its id.
    pub fn track(&mut self, id: &str) -> (b: Builder<'_, F, TrackEndpoint>)
        ensures
            *b.spotify == *old(self),
            *final(self) == *final(b.spotify),
            b.endpoint.id@ == id@,
            b.endpoint.bare(),
    {
        self.builder(TrackEndpoint { id: id.to_owned(), market: None })
    }

    /// Several tracks, by their ids.
    pub fn tracks(&mut self, ids: &[&str]) -> (b: Builder<'_, F, TracksEndpoint>)
        ensures
            *b.spotify == *old(self),
            *final(self) == *final(b.spotify),
            b.endpoint.ids@ == comma_joined(texts(ids@)),
            b.endpoint.bare(),
    {
        self.builder(TracksEndpoint { ids: query_list(ids), market: None })
    }

    /// Several artists, by their ids. The answer wraps the list.
    pub fn get_artists(&self, now: u64, ids: &[&str]) -> (r: Dispatch)
        ensures
            r@ == dispatch_of(
                self.state()@,
                self.refreshes(),
                now,
                ApiCallView {
                    method: Method::Get,
                    path: "/artists"@,
                    query: required("ids"@, comma_joined(texts(ids@))),
                    body: None,
                    answer: Answer::Member(Listing::Artists),
                },
            ),
    {
        let mut query = Query::new();
        query.text("ids", query_list(ids).as_str());
        assert(query@ =~= required("ids"@, comma_joined(texts(ids@))));
        self.get(now, "/artists".to_owned(), Some(query.pairs), Answer::Member(Listing::Artists))
    }

    /// The genres that recommendations can grow from. The answer wraps the list.
    pub fn get_genre_seeds(&self, now: u64) -> (r: Dispatch)
        ensures
            r@ == dispatch_of(
                self.state()@,
                self.refreshes(),
                now,
                ApiCallView {
                    method: Method::Get,
                    path: "/recommendations/available-genre-seeds"@,
                    query: Seq::empty(),
                    body: None,
                    answer: Answer::Member(Listing::Genres),
                },
            ),
    {
        self.get(
            now,
            "/recommendations/available-genre-seeds".to_owned(),
            None,
            Answer::Member(Listing::Genres),
        )
    }

    /// The markets that the service is offered in. The answer wraps the list.
    pub fn get_available_markets(&self, now: u64) -> (r: Dispatch)
        ensures
            r@ == dispatch_of(
                self.state()@,
                self.refreshes(),
                now,
                ApiCallView {
                    method: Method::Get,
                    path: "/markets"@,
                    query: Seq::empty(),
                    body: None,
                    answer: Answer::Member(Listing::Markets),
                },
            ),
    {
        self.get(now, "/markets".to_owned(), None, Answer::Member(Listing::Markets))
    }

    /// The cover images of a playlist.
    pub fn get_playlist_image(&self, now: u64, id: &str) -> (r: Dispatch)
        ensures
            r@ == dispatch_of(
                self.state()@,
                self.refreshes(),
                now,
                ApiCallView {
                    method: Method::Get,
                    path: "/playlists/"@ + id@ + "/images"@,
                    query: Seq::empty(),
                    body: None,
                    answer: Answer::Document,
                },
            ),
    {
        self.get(now, concat3("/playlists/", id, "/images"), None, Answer::Document)
    }

    /// The audio features of a track.
    pub fn get_track_audio_features(&self, now: u64, id: &str) -> (r: Dispatch)
        ensures
            r@ == dispatch_of(
                self.state()@,
                self.refreshes(),
                now,
                ApiCallView {
                    method: Method::Get,
                    path: "/audio-features/"@ + id@,
                    query: Seq::empty(),
                    body: None,
                    answer: Answer::Document,
                },
            ),
    {
        self.get(now, concat2("/audio-features/", id), None, Answer::Document)
    }

    /// The audio features of several tracks. The answer wraps the list.
    pub fn get_tracks_audio_features(&self, now: u64, ids: &[&str]) -> (r: Dispatch)
        ensures
            r@ == dispatch_of(
                self.state()@,
                self.refreshes(),
                now,
                ApiCallView {
                    method: Method::Get,
                    path: "/audio-features"@,
                    query: required("ids"@, comma_joined(texts(ids@))),
                    body: None,
                    answer: Answer::Member(Listing::AudioFeatures),
                },
            ),
    {
        let mut query = Query::new();
        query.text("ids", query_list(ids).as_str());
        assert(query@ =~= required("ids"@, comma_joined(texts(ids@))));
        self.get(
            now,
            "/audio-features".to_owned(),
            Some(query.pairs),
            Answer::Member(Listing::AudioFeatures),
        )
    }

    /// The audio analysis of a track.
    pub fn get_track_audio_analysis(&self, now: u64, id: &str) -> (r: Dispatch)
        ensures
            r@ == dispatch_of(
                self.state()@,
                self.refreshes(),
                now,
                ApiCallView {
                    method: Method::Get,
                    path: "/audio-analysis/"@ + id@,
                    query: Seq::empty(),
                    body: None,
                    answer: Answer::Document,
                },
            ),
    {
        self.get(now, concat2("/audio-analysis/", id), None, Answer::Document)
    }

    /// The public profile of a user.
    pub fn get_user(&self, now: u64, id: &str) -> (r: Dispatch)
        ensures
            r@ == dispatch_of(
                self.state()@,
                self.refreshes(),
                now,
                ApiCallView {
                    method: Method::Get,
                    path: "/users/"@ + id@,
                    query: Seq::empty(),
                    body: None,
                    answer: Answer::Document,
                },
            ),
    {
        self.get(now, concat2("/users/", id), None, Answer::Document)
    }

    /// Whether the users follow the playlist, user by user.
    pub fn check_if_users_follow_playlist(
        &self,
        now: u64,
        playlist_id: &str,
        user_ids: &[&str],
    ) -> (r: Dispatch)
        ensures
            r@ == dispatch_of(
                self.state()@,
                self.refreshes(),
                now,
                ApiCallView {
                    method: Method::Get,
                    path: "/playlists/"@ + playlist_id@ + "/followers/contains"@,
                    query: required("ids"@, comma_joined(texts(user_ids@))),
                    body: None,
                    answer: Answer::Document,
                },
            ),
    {
        let mut query = Query::new();
        query.text("ids", query_list(user_ids).as_str());
        assert(query@ =~= required("ids"@, comma_joined(texts(user_ids@))));
        self.get(
            now,
            concat3("/playlists/", playlist_id, "/followers/contains"),
            Some(query.pairs),
            Answer::Document,
        )
    }

    /// Recommendations that grow from `seed`. The builder keeps the seed's
    /// kind: only a seed of the same kind can take its place.
    pub fn recommendations<S: SeedType>(&mut self, seed: Seed<'_, S>) -> (b: Builder<
        '_,
        F,
        RecommendationsEndpoint<S>,
    >)
        ensures
            *b.spotify == *old(self),
            *final(self) == *final(b.spotify),
            b.endpoint.bare(),
            match seed {
                Seed::Artists(ids, _) => {
                    &&& text_view(b.endpoint.seed_artists) == Some(comma_joined(texts(ids@)))
                    &&& b.endpoint.seed_genres is None
                    &&& b.endpoint.seed_tracks is None
                },
                Seed::Genres(genres, _) => {
                    &&& b.endpoint.seed_artists is None
                    &&& text_view(b.endpoint.seed_genres) == Some(comma_joined(texts(genres@)))
                    &&& b.endpoint.seed_tracks is None
                },
                Seed::Tracks(ids, _) => {
                    &&& b.endpoint.seed_artists is None
                    &&& b.endpoint.seed_genres is None
                    &&& text_view(b.endpoint.seed_tracks) == Some(comma_joined(texts(ids@)))
                },
            },
    {
        let (seed_artists, seed_genres, seed_tracks) = match seed {
            Seed::Artists(ids, _) => (Some(query_list(ids)), None, None),
            Seed::Genres(genres, _) => (None, Some(query_list(genres)), None),
            Seed::Tracks(ids, _) => (None, None, Some(query_list(ids))),
        };
        self.builder(
            RecommendationsEndpoint {
                seed_artists,
                seed_genres,
                seed_tracks,
                limit: None,
                market: None,
                features: Vec::new(),
                marker: PhantomData,
            },
        )
    }

    /// Sets the cover image of a playlist. The image is sent as the base64
    /// text of its bytes, with the content type `image/jpeg`; its size is not
    /// looked at.
    pub fn add_playlist_image(&self, now: u64, id: &str, image: &[u8]) -> (r: Dispatch)
        requires
            encodable(image@.len()),
        ensures
            r@ == dispatch_of(
                self.state()@,
                self.refreshes(),
                now,
                ApiCallView {
                    method: Method::Put,
                    path: "/playlists/"@ + id@ + "/images"@,
                    query: Seq::empty(),
                    body: Some(
                        BodyView::File {
                            content_type: "image/jpeg"@,
                            bytes: encode_utf8(base64_standard(image@)),
                        },
                    ),
                    answer: Answer::Nothing,
                },
            ),
    {
        let encoded = encode_standard(image);
        let body = Body::File {
            content_type: "image/jpeg".to_owned(),
            bytes: encoded.as_str().as_bytes_vec(),
        };
        self.put(now, concat3("/playlists/", id, "/images"), Some(body), Answer::Nothing)
    }
}

} // verus!
