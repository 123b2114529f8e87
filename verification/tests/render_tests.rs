use spotify_mcp::models::{
    CurrentlyPlaying, Device, ExternalUrls, FullArtist, FullPlaylist, FullTrack, Paginated,
    PlayHistory, PlaybackState, PlaylistOwner, PlaylistTrack, PlaylistTracksRef, Queue,
    RecentlyPlayed, SavedTrack, SavedTracks, SearchResult, SimplifiedAlbum, SimplifiedArtist,
    SimplifiedPlaylist, UserPlaylists,
};
use spotify_mcp::render::{
    currently_playing_text, format_artists, format_duration, format_track, playback_state_text,
    playlist_text, playlists_text, queue_text, recently_played_text, saved_tracks_text,
    search_text,
};
use spotify_mcp::text::{decimal_string, join, padded2_string};

fn urls(u: Option<&str>) -> ExternalUrls {
    ExternalUrls { spotify: u.map(|s| s.to_string()) }
}

fn artist(name: &str) -> SimplifiedArtist {
    SimplifiedArtist { id: format!("id-{}", name), name: name.to_string(), external_urls: urls(None) }
}

fn album(name: &str, artists: Vec<SimplifiedArtist>) -> SimplifiedAlbum {
    SimplifiedAlbum {
        id: "al".to_string(),
        name: name.to_string(),
        album_type: None,
        artists,
        release_date: Some("1997-05-21".to_string()),
        total_tracks: None,
        external_urls: urls(Some("https://open.spotify.com/album/al")),
        images: None,
    }
}

fn track(name: &str, with_album: bool, duration_ms: u64) -> FullTrack {
    FullTrack {
        id: Some("t".to_string()),
        name: name.to_string(),
        artists: vec![artist("Radiohead")],
        album: if with_album { Some(album("OK Computer", vec![artist("Radiohead")])) } else { None },
        duration_ms,
        track_number: None,
        popularity: None,
        uri: format!("spotify:track:{}", name),
        external_urls: urls(None),
        is_local: None,
    }
}

#[test]
fn decimal_and_padding() {
    assert_eq!(decimal_string(0), "0");
    assert_eq!(decimal_string(7), "7");
    assert_eq!(decimal_string(42), "42");
    assert_eq!(decimal_string(18446744073709551615), "18446744073709551615");
    assert_eq!(padded2_string(0), "00");
    assert_eq!(padded2_string(5), "05");
    assert_eq!(padded2_string(59), "59");
}

#[test]
fn join_lines() {
    assert_eq!(join(&vec![], ", "), "");
    assert_eq!(join(&vec!["a".to_string()], ", "), "a");
    assert_eq!(join(&vec!["a".to_string(), "b".to_string(), "c".to_string()], "\n"), "a\nb\nc");
}

#[test]
fn durations() {
    assert_eq!(format_duration(0), "0:00");
    assert_eq!(format_duration(999), "0:00");
    assert_eq!(format_duration(61_000), "1:01");
    assert_eq!(format_duration(238_999), "3:58");
    assert_eq!(format_duration(3_599_999), "59:59");
    assert_eq!(format_duration(3_600_000), "60:00");
}

#[test]
fn artists_joined() {
    assert_eq!(format_artists(&[]), "");
    assert_eq!(format_artists(&[artist("A")]), "A");
    assert_eq!(format_artists(&[artist("A"), artist("B")]), "A, B");
}

#[test]
fn track_lines() {
    assert_eq!(
        format_track(&track("Airbag", true, 284_000)),
        "\"Airbag\" by Radiohead (Album: OK Computer) [4:44] - spotify:track:Airbag"
    );
    assert_eq!(
        format_track(&track("Lucky", false, 259_000)),
        "\"Lucky\" by Radiohead (Album: Unknown Album) [4:19] - spotify:track:Lucky"
    );
}

fn device(volume: Option<u32>) -> Device {
    Device {
        id: None,
        name: "Laptop".to_string(),
        device_type: "Computer".to_string(),
        volume_percent: volume,
        is_active: true,
    }
}

#[test]
fn playback_state() {
    assert_eq!(playback_state_text(&None), "No active playback session.");
    let bare = PlaybackState {
        device: device(None),
        shuffle_state: false,
        repeat_state: "off".to_string(),
        is_playing: false,
        item: None,
        progress_ms: Some(5000),
        context: None,
    };
    assert_eq!(
        playback_state_text(&Some(bare)),
        "Device: Laptop (Computer)\nPlaying: false\nShuffle: false\nRepeat: off"
    );
    let full = PlaybackState {
        device: device(Some(70)),
        shuffle_state: true,
        repeat_state: "track".to_string(),
        is_playing: true,
        item: Some(track("Airbag", true, 284_000)),
        progress_ms: Some(65_000),
        context: None,
    };
    assert_eq!(
        playback_state_text(&Some(full)),
        "Device: Laptop (Computer)\nPlaying: true\nShuffle: true\nRepeat: track\nVolume: 70%\n\
         Track: \"Airbag\" by Radiohead (Album: OK Computer) [4:44] - spotify:track:Airbag\n\
         Progress: 1:05 / 4:44"
    );
}

#[test]
fn currently_playing() {
    assert_eq!(currently_playing_text(&None), "Nothing is currently playing.");
    let c = CurrentlyPlaying {
        is_playing: true,
        item: Some(track("Airbag", true, 284_000)),
        progress_ms: None,
        context: None,
    };
    assert_eq!(
        currently_playing_text(&Some(c)),
        "Playing: true\nTrack: \"Airbag\" by Radiohead (Album: OK Computer) [4:44] - spotify:track:Airbag"
    );
    let idle = CurrentlyPlaying { is_playing: false, item: None, progress_ms: Some(1), context: None };
    assert_eq!(currently_playing_text(&Some(idle)), "Playing: false");
}

#[test]
fn recently_played() {
    assert_eq!(recently_played_text(&RecentlyPlayed { items: vec![] }), "No recently played tracks.");
    let recent = RecentlyPlayed {
        items: vec![
            PlayHistory { track: track("A", false, 60_000), played_at: "2024-01-01T10:00:00Z".to_string() },
            PlayHistory { track: track("B", false, 1_000), played_at: "2024-01-01T09:00:00Z".to_string() },
        ],
    };
    assert_eq!(
        recently_played_text(&recent),
        "Recently played (2 tracks):\n\
         1. \"A\" by Radiohead (Album: Unknown Album) [1:00] - spotify:track:A (played at 2024-01-01T10:00:00Z)\n\
         2. \"B\" by Radiohead (Album: Unknown Album) [0:01] - spotify:track:B (played at 2024-01-01T09:00:00Z)"
    );
}

#[test]
fn queue() {
    let empty = Queue { currently_playing: None, queue: vec![] };
    assert_eq!(queue_text(&empty), "Queue is empty.");
    let q = Queue {
        currently_playing: Some(track("A", false, 0)),
        queue: vec![track("B", false, 0), track("C", false, 0)],
    };
    assert_eq!(
        queue_text(&q),
        "Now playing: \"A\" by Radiohead (Album: Unknown Album) [0:00] - spotify:track:A\n\
         \nUp next (2 tracks):\n\
         1. \"B\" by Radiohead (Album: Unknown Album) [0:00] - spotify:track:B\n\
         2. \"C\" by Radiohead (Album: Unknown Album) [0:00] - spotify:track:C"
    );
}

fn page<T>(items: Vec<T>, total: u32) -> Paginated<T> {
    Paginated { items, total, limit: 20, offset: 0 }
}

fn listed_playlist(name: &str, public: Option<bool>, owner_name: Option<&str>) -> SimplifiedPlaylist {
    SimplifiedPlaylist {
        id: format!("pl-{}", name),
        name: name.to_string(),
        description: None,
        public,
        owner: PlaylistOwner { id: "owner-id".to_string(), display_name: owner_name.map(|s| s.to_string()) },
        tracks: PlaylistTracksRef { total: 12 },
        external_urls: urls(Some("https://open.spotify.com/playlist/x")),
        images: None,
    }
}

#[test]
fn search_empty_and_sections() {
    let nothing = SearchResult { tracks: None, artists: None, albums: None, playlists: None };
    assert_eq!(search_text(&nothing), "No results found.");
    let empty_tracks = SearchResult { tracks: Some(page(vec![], 0)), artists: None, albums: None, playlists: None };
    assert_eq!(search_text(&empty_tracks), "Tracks (0 total):");
    let all = SearchResult {
        tracks: Some(page(vec![track("A", false, 0)], 100)),
        artists: Some(page(
            vec![
                FullArtist {
                    id: "r".to_string(),
                    name: "Radiohead".to_string(),
                    genres: Some(vec!["rock".to_string(), "art rock".to_string()]),
                    popularity: None,
                    external_urls: urls(Some("https://open.spotify.com/artist/r")),
                    images: None,
                },
                FullArtist {
                    id: "x".to_string(),
                    name: "X".to_string(),
                    genres: None,
                    popularity: None,
                    external_urls: urls(None),
                    images: None,
                },
            ],
            2,
        )),
        albums: Some(page(vec![album("OK Computer", vec![artist("Radiohead"), artist("Guest")])], 1)),
        playlists: Some(page(vec![listed_playlist("Mix", None, None), listed_playlist("Jazz", None, Some("Ann"))], 2)),
    };
    assert_eq!(
        search_text(&all),
        "Tracks (100 total):\n  1. \"A\" by Radiohead (Album: Unknown Album) [0:00] - spotify:track:A\n\
         \nArtists (2 total):\n  1. Radiohead (Genres: rock, art rock) - https://open.spotify.com/artist/r\n  2. X (Genres: ) - \n\
         \nAlbums (1 total):\n  1. \"OK Computer\" by Radiohead, Guest (1997-05-21) - https://open.spotify.com/album/al\n\
         \nPlaylists (2 total):\n  1. \"Mix\" by owner-id (12 tracks) - https://open.spotify.com/playlist/x\n  2. \"Jazz\" by Ann (12 tracks) - https://open.spotify.com/playlist/x"
    );
}

#[test]
fn list_of_playlists() {
    let none = UserPlaylists { items: vec![], total: 0, limit: 20, offset: 0 };
    assert_eq!(playlists_text(&none), "No playlists found.");
    let some = UserPlaylists {
        items: vec![listed_playlist("Mix", Some(true), None), listed_playlist("Jazz", Some(false), None), listed_playlist("Old", None, None)],
        total: 3,
        limit: 20,
        offset: 0,
    };
    assert_eq!(
        playlists_text(&some),
        "Your playlists (3 total):\n1. \"Mix\" (public, 12 tracks) - ID: pl-Mix\n2. \"Jazz\" (private, 12 tracks) - ID: pl-Jazz\n3. \"Old\" (private, 12 tracks) - ID: pl-Old"
    );
}

fn full_playlist(description: Option<&str>, items: Vec<PlaylistTrack>) -> FullPlaylist {
    FullPlaylist {
        id: "p".to_string(),
        name: "Road Trip".to_string(),
        description: description.map(|s| s.to_string()),
        public: Some(true),
        owner: PlaylistOwner { id: "owner-id".to_string(), display_name: Some("Ann".to_string()) },
        tracks: Paginated { total: items.len() as u32, items, limit: 100, offset: 0 },
        external_urls: urls(None),
    }
}

#[test]
fn one_playlist() {
    assert_eq!(
        playlist_text(&full_playlist(Some(""), vec![])),
        "Playlist: \"Road Trip\"\nOwner: Ann\nVisibility: public\nTotal tracks: 0"
    );
    let items = vec![
        PlaylistTrack { added_at: None, track: Some(track("A", false, 0)) },
        PlaylistTrack { added_at: None, track: None },
        PlaylistTrack { added_at: None, track: Some(track("C", false, 0)) },
    ];
    assert_eq!(
        playlist_text(&full_playlist(Some("Songs for the road"), items)),
        "Playlist: \"Road Trip\"\nDescription: Songs for the road\nOwner: Ann\nVisibility: public\nTotal tracks: 3\n\
         \nTracks:\n  1. \"A\" by Radiohead (Album: Unknown Album) [0:00] - spotify:track:A\n  3. \"C\" by Radiohead (Album: Unknown Album) [0:00] - spotify:track:C"
    );
}

#[test]
fn liked_songs() {
    let none = SavedTracks { items: vec![], total: 0, limit: 20, offset: 0 };
    assert_eq!(saved_tracks_text(&none), "No saved tracks found.");
    let page = SavedTracks {
        items: vec![
            SavedTrack { added_at: None, track: track("A", false, 0) },
            SavedTrack { added_at: None, track: track("B", false, 0) },
        ],
        total: 57,
        limit: 2,
        offset: 40,
    };
    assert_eq!(
        saved_tracks_text(&page),
        "Liked Songs (57 total, showing 41-42):\n\
         41. \"A\" by Radiohead (Album: Unknown Album) [0:00] - spotify:track:A\n\
         42. \"B\" by Radiohead (Album: Unknown Album) [0:00] - spotify:track:B"
    );
}
