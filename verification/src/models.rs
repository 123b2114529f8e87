//! The Spotify Web API objects that the server reads, as plain values.

use vstd::prelude::*;

verus! {

/// A cover image.
#[derive(Debug)]
pub struct Image {
    pub url: String,
    pub height: Option<u32>,
    pub width: Option<u32>,
}

/// Links to an object on the web.
#[derive(Debug)]
pub struct ExternalUrls {
    pub spotify: Option<String>,
}

/// An artist as listed on a track or an album.
#[derive(Debug)]
pub struct SimplifiedArtist {
    pub id: String,
    pub name: String,
    pub external_urls: ExternalUrls,
}

/// An artist as returned by a search.
#[derive(Debug)]
pub struct FullArtist {
    pub id: String,
    pub name: String,
    pub genres: Option<Vec<String>>,
    pub popularity: Option<u32>,
    pub external_urls: ExternalUrls,
    pub images: Option<Vec<Image>>,
}

/// An album as listed on a track or returned by a search.
#[derive(Debug)]
pub struct SimplifiedAlbum {
    pub id: String,
    pub name: String,
    pub album_type: Option<String>,
    pub artists: Vec<SimplifiedArtist>,
    pub release_date: Option<String>,
    pub total_tracks: Option<u32>,
    pub external_urls: ExternalUrls,
    pub images: Option<Vec<Image>>,
}

/// A track.
#[derive(Debug)]
pub struct FullTrack {
    pub id: Option<String>,
    pub name: String,
    pub artists: Vec<SimplifiedArtist>,
    pub album: Option<SimplifiedAlbum>,
    pub duration_ms: u64,
    pub track_number: Option<u32>,
    pub popularity: Option<u32>,
    pub uri: String,
    pub external_urls: ExternalUrls,
    pub is_local: Option<bool>,
}

/// A playback device.
#[derive(Debug)]
pub struct Device {
    pub id: Option<String>,
    pub name: String,
    pub device_type: String,
    pub volume_percent: Option<u32>,
    pub is_active: bool,
}

/// What is being played from (an album, a playlist, an artist).
#[derive(Debug)]
pub struct Context {
    pub uri: String,
    pub context_type: String,
}

/// The full playback state.
#[derive(Debug)]
pub struct PlaybackState {
    pub device: Device,
    pub shuffle_state: bool,
    pub repeat_state: String,
    pub is_playing: bool,
    pub item: Option<FullTrack>,
    pub progress_ms: Option<u64>,
    pub context: Option<Context>,
}

/// The currently playing track.
#[derive(Debug)]
pub struct CurrentlyPlaying {
    pub is_playing: bool,
    pub item: Option<FullTrack>,
    pub progress_ms: Option<u64>,
    pub context: Option<Context>,
}

/// One entry of the listening history.
#[derive(Debug)]
pub struct PlayHistory {
    pub track: FullTrack,
    pub played_at: String,
}

/// The recently played tracks.
#[derive(Debug)]
pub struct RecentlyPlayed {
    pub items: Vec<PlayHistory>,
}

/// The playback queue.
#[derive(Debug)]
pub struct Queue {
    pub currently_playing: Option<FullTrack>,
    pub queue: Vec<FullTrack>,
}

/// One page of a longer list.
#[derive(Debug)]
pub struct Paginated<T> {
    pub items: Vec<T>,
    pub total: u32,
    pub limit: u32,
    pub offset: u32,
}

/// The answer to a search, one page per kind of item asked for.
#[derive(Debug)]
pub struct SearchResult {
    pub tracks: Option<Paginated<FullTrack>>,
    pub artists: Option<Paginated<FullArtist>>,
    pub albums: Option<Paginated<SimplifiedAlbum>>,
    pub playlists: Option<Paginated<SimplifiedPlaylist>>,
}

/// The owner of a playlist.
#[derive(Debug)]
pub struct PlaylistOwner {
    pub id: String,
    pub display_name: Option<String>,
}

/// A playlist as listed.
#[derive(Debug)]
pub struct SimplifiedPlaylist {
    pub id: String,
    pub name: String,
    pub description: Option<String>,
    pub public: Option<bool>,
    pub owner: PlaylistOwner,
    pub tracks: PlaylistTracksRef,
    pub external_urls: ExternalUrls,
    pub images: Option<Vec<Image>>,
}

/// How many tracks a listed playlist has.
#[derive(Debug)]
pub struct PlaylistTracksRef {
    pub total: u32,
}

/// A playlist with its first page of tracks.
#[derive(Debug)]
pub struct FullPlaylist {
    pub id: String,
    pub name: String,
    pub description: Option<String>,
    pub public: Option<bool>,
    pub owner: PlaylistOwner,
    pub tracks: Paginated<PlaylistTrack>,
    pub external_urls: ExternalUrls,
}

/// One entry of a playlist; the track is absent where it is no longer available.
#[derive(Debug)]
pub struct PlaylistTrack {
    pub added_at: Option<String>,
    pub track: Option<FullTrack>,
}

/// One page of the user's playlists.
#[derive(Debug)]
pub struct UserPlaylists {
    pub items: Vec<SimplifiedPlaylist>,
    pub total: u32,
    pub limit: u32,
    pub offset: u32,
}

/// The current user.
#[derive(Debug)]
pub struct UserProfile {
    pub id: String,
    pub display_name: Option<String>,
}

/// One track of the user's Liked Songs.
#[derive(Debug)]
pub struct SavedTrack {
    pub added_at: Option<String>,
    pub track: FullTrack,
}

/// One page of the user's Liked Songs.
#[derive(Debug)]
pub struct SavedTracks {
    pub items: Vec<SavedTrack>,
    pub total: u32,
    pub limit: u32,
    pub offset: u32,
}

/// The playlist version that a change produced.
#[derive(Debug)]
pub struct SnapshotResponse {
    pub snapshot_id: String,
}

} // verus!
