use spotify_mcp::models::{ExternalUrls, FullPlaylist, Paginated, PlaylistOwner, SnapshotResponse};
use spotify_mcp::replies::{
    acknowledgement_text, created_playlist_text, queued_text, reordered_text, repeat_text,
    replaced_text, saved_text, seek_text, shuffle_text, tracks_added_text, tracks_removed_text,
    unsaved_text, volume_text, Acknowledgement,
};

#[test]
fn fixed_confirmations() {
    assert_eq!(acknowledgement_text(Acknowledgement::Play), "Playback started/resumed.");
    assert_eq!(acknowledgement_text(Acknowledgement::Pause), "Playback paused.");
    assert_eq!(acknowledgement_text(Acknowledgement::NextTrack), "Skipped to next track.");
    assert_eq!(acknowledgement_text(Acknowledgement::PreviousTrack), "Skipped to previous track.");
    assert_eq!(acknowledgement_text(Acknowledgement::UpdatePlaylist), "Playlist updated.");
}

#[test]
fn player_confirmations() {
    assert_eq!(volume_text(50), "Volume set to 50%.");
    assert_eq!(shuffle_text(true), "Shuffle enabled.");
    assert_eq!(shuffle_text(false), "Shuffle disabled.");
    assert_eq!(repeat_text("context"), "Repeat mode set to 'context'.");
    assert_eq!(seek_text(90_500), "Seeked to 1:30.");
    assert_eq!(queued_text("spotify:track:1"), "Added spotify:track:1 to queue.");
}

#[test]
fn playlist_and_library_confirmations() {
    let snap = SnapshotResponse { snapshot_id: "abc".to_string() };
    let playlist = FullPlaylist {
        id: "p1".to_string(),
        name: "Road Trip".to_string(),
        description: None,
        public: None,
        owner: PlaylistOwner { id: "o".to_string(), display_name: None },
        tracks: Paginated { items: vec![], total: 0, limit: 0, offset: 0 },
        external_urls: ExternalUrls { spotify: None },
    };
    assert_eq!(created_playlist_text(&playlist), "Created playlist \"Road Trip\" (ID: p1)");
    assert_eq!(tracks_added_text(3, &snap), "Added 3 track(s) to playlist. Snapshot: abc");
    assert_eq!(tracks_removed_text(1), "Removed 1 track(s) from playlist.");
    assert_eq!(reordered_text(&snap), "Reordered tracks in playlist. Snapshot: abc");
    assert_eq!(replaced_text(10, &snap), "Replaced all tracks in playlist (10 tracks). Snapshot: abc");
    assert_eq!(saved_text(0), "Saved 0 track(s) to Liked Songs.");
    assert_eq!(unsaved_text(2), "Removed 2 track(s) from Liked Songs.");
}
