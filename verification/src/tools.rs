//! The arguments of each tool that the server offers.

use vstd::prelude::*;

verus! {

/// Arguments of `get_saved_tracks`.
#[derive(Debug)]
pub struct GetSavedTracksParams {
    /// Maximum number of tracks to return (max 50)
    pub limit: Option<u32>,
    /// Index of the first track to return
    pub offset: Option<u32>,
}

/// Arguments of `save_tracks`.
#[derive(Debug)]
pub struct SaveTracksParams {
    /// Spotify track IDs to save (not URIs, just the ID part)
    pub track_ids: Vec<String>,
}

/// Arguments of `remove_saved_tracks`.
#[derive(Debug)]
pub struct RemoveSavedTracksParams {
    /// Spotify track IDs to remove from Liked Songs
    pub track_ids: Vec<String>,
}

/// Arguments of `play`.
#[derive(Debug)]
pub struct PlayParams {
    /// Spotify URI of the context to play (album, artist, or playlist URI)
    pub context_uri: Option<String>,
    /// Spotify track URIs to play
    pub uris: Option<Vec<String>>,
    /// The ID of the device to target
    pub device_id: Option<String>,
}

/// Arguments of `pause`.
#[derive(Debug)]
pub struct PauseParams {
    /// The ID of the device to target
    pub device_id: Option<String>,
}

/// Arguments of `next_track`.
#[derive(Debug)]
pub struct NextTrackParams {
    /// The ID of the device to target
    pub device_id: Option<String>,
}

/// Arguments of `previous_track`.
#[derive(Debug)]
pub struct PreviousTrackParams {
    /// The ID of the device to target
    pub device_id: Option<String>,
}

/// Arguments of `set_volume`.
#[derive(Debug)]
pub struct SetVolumeParams {
    /// Volume level from 0 to 100
    pub volume_percent: u32,
    /// The ID of the device to target
    pub device_id: Option<String>,
}

/// Arguments of `set_shuffle`.
#[derive(Debug)]
pub struct SetShuffleParams {
    /// Whether to enable shuffle
    pub state: bool,
    /// The ID of the device to target
    pub device_id: Option<String>,
}

/// Arguments of `set_repeat`.
#[derive(Debug)]
pub struct SetRepeatParams {
    /// Repeat mode: "track", "context", or "off"
    pub state: String,
    /// The ID of the device to target
    pub device_id: Option<String>,
}

/// Arguments of `seek`.
#[derive(Debug)]
pub struct SeekParams {
    /// Position in milliseconds to seek to
    pub position_ms: u64,
    /// The ID of the device to target
    pub device_id: Option<String>,
}

/// Arguments of `get_recently_played`.
#[derive(Debug)]
pub struct GetRecentlyPlayedParams {
    /// Number of items to return (max 50)
    pub limit: Option<u32>,
}

/// Arguments of `list_playlists`.
#[derive(Debug)]
pub struct ListPlaylistsParams {
    /// Maximum number of playlists to return (max 50)
    pub limit: Option<u32>,
    /// Index of the first playlist to return
    pub offset: Option<u32>,
}

/// Arguments of `get_playlist`.
#[derive(Debug)]
pub struct GetPlaylistParams {
    /// The Spotify ID of the playlist
    pub playlist_id: String,
}

/// Arguments of `create_playlist`.
#[derive(Debug)]
pub struct CreatePlaylistParams {
    /// Name for the new playlist
    pub name: String,
    /// Description for the new playlist
    pub description: Option<String>,
    /// Whether the playlist should be public
    pub public: Option<bool>,
}

/// Arguments of `add_tracks_to_playlist`.
#[derive(Debug)]
pub struct AddTracksToPlaylistParams {
    /// The Spotify ID of the playlist
    pub playlist_id: String,
    /// Spotify track URIs to add
    pub uris: Vec<String>,
    /// Position to insert the tracks (0-based)
    pub position: Option<u32>,
}

/// Arguments of `remove_tracks_from_playlist`.
#[derive(Debug)]
pub struct RemoveTracksFromPlaylistParams {
    /// The Spotify ID of the playlist
    pub playlist_id: String,
    /// Spotify track URIs to remove
    pub uris: Vec<String>,
}

/// Arguments of `update_playlist`.
#[derive(Debug)]
pub struct UpdatePlaylistParams {
    /// The Spotify ID of the playlist
    pub playlist_id: String,
    /// New name for the playlist
    pub name: Option<String>,
    /// New description for the playlist
    pub description: Option<String>,
    /// Whether the playlist should be public
    pub public: Option<bool>,
}

/// Arguments of `reorder_playlist_tracks`.
#[derive(Debug)]
pub struct ReorderPlaylistTracksParams {
    /// The Spotify ID of the playlist
    pub playlist_id: String,
    /// The position of the first track to be reordered (0-based index)
    pub range_start: u32,
    /// The position where the tracks should be inserted (0-based index)
    pub insert_before: u32,
    /// The number of tracks to be reordered (default: 1)
    pub range_length: Option<u32>,
}

/// Arguments of `replace_playlist_tracks`.
#[derive(Debug)]
pub struct ReplacePlaylistTracksParams {
    /// The Spotify ID of the playlist
    pub playlist_id: String,
    /// Spotify track URIs that will replace all tracks in the playlist
    pub uris: Vec<String>,
}

/// Arguments of `add_to_queue`.
#[derive(Debug)]
pub struct AddToQueueParams {
    /// The Spotify URI of the track to add to queue
    pub uri: String,
    /// The ID of the device to target
    pub device_id: Option<String>,
}

/// Arguments of `search`.
#[derive(Debug)]
pub struct SearchParams {
    /// Search query string
    pub query: String,
    /// Comma-separated item types to search: "track", "artist", "album", "playlist"
    pub search_type: String,
    /// Maximum number of results to return (max 50)
    pub limit: Option<u32>,
    /// Index of the first result to return
    pub offset: Option<u32>,
}

} // verus!
