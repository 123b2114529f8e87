use spotify_mcp::json::JsonValue;
use spotify_mcp::requests::{
    add_tracks_request, add_to_queue_request, clamp_limit, create_playlist_request,
    current_user_request, currently_playing_request, endpoint_url, get_playlist_request,
    list_playlists_request, next_track_request, pause_request, play_request,
    playback_state_request, previous_track_request, queue_request, recently_played_request,
    remove_saved_tracks_request, remove_tracks_request, reorder_request, replace_tracks_request,
    save_tracks_request, saved_tracks_request, search_request, seek_request, set_repeat_request,
    set_shuffle_request, set_volume_request, text_array_value, update_playlist_request,
    ApiRequest, HttpMethod, ResponseKind,
};

fn text(s: &str) -> JsonValue {
    JsonValue::Text(s.to_string())
}

fn object(members: Vec<(&str, JsonValue)>) -> JsonValue {
    JsonValue::Object(members.into_iter().map(|(k, v)| (k.to_string(), v)).collect())
}

fn strings(items: &[&str]) -> Vec<String> {
    items.iter().map(|s| s.to_string()).collect()
}

fn check(req: ApiRequest, method: HttpMethod, path: &str, body: Option<JsonValue>, response: ResponseKind) {
    assert_eq!(req.method, method);
    assert_eq!(req.path, path);
    assert_eq!(req.body, body);
    assert_eq!(req.response, response);
}

#[test]
fn base_url() {
    assert_eq!(endpoint_url("/me"), "https://api.spotify.com/v1/me");
}

#[test]
fn page_limits() {
    assert_eq!(clamp_limit(None), 20);
    assert_eq!(clamp_limit(Some(0)), 0);
    assert_eq!(clamp_limit(Some(50)), 50);
    assert_eq!(clamp_limit(Some(51)), 50);
    assert_eq!(clamp_limit(Some(u32::MAX)), 50);
}

#[test]
fn play_bodies() {
    check(play_request(None, None, None), HttpMethod::Put, "/me/player/play", None, ResponseKind::Empty);
    check(
        play_request(Some("spotify:album:1"), None, Some("dev")),
        HttpMethod::Put,
        "/me/player/play?device_id=dev",
        Some(object(vec![("context_uri", text("spotify:album:1"))])),
        ResponseKind::Empty,
    );
    let uris = strings(&["spotify:track:a", "spotify:track:b"]);
    check(
        play_request(Some("ctx"), Some(&uris), None),
        HttpMethod::Put,
        "/me/player/play",
        Some(object(vec![
            ("context_uri", text("ctx")),
            ("uris", JsonValue::Array(vec![text("spotify:track:a"), text("spotify:track:b")])),
        ])),
        ResponseKind::Empty,
    );
    check(
        play_request(None, Some(&[]), None),
        HttpMethod::Put,
        "/me/player/play",
        Some(object(vec![("uris", JsonValue::Array(vec![]))])),
        ResponseKind::Empty,
    );
}

#[test]
fn player_paths() {
    check(pause_request(None), HttpMethod::Put, "/me/player/pause", None, ResponseKind::Empty);
    check(pause_request(Some("d")), HttpMethod::Put, "/me/player/pause?device_id=d", None, ResponseKind::Empty);
    check(next_track_request(None), HttpMethod::Post, "/me/player/next", None, ResponseKind::Empty);
    check(previous_track_request(Some("d")), HttpMethod::Post, "/me/player/previous?device_id=d", None, ResponseKind::Empty);
    check(set_volume_request(35, None), HttpMethod::Put, "/me/player/volume?volume_percent=35", None, ResponseKind::Empty);
    check(set_volume_request(100, Some("d")), HttpMethod::Put, "/me/player/volume?volume_percent=100&device_id=d", None, ResponseKind::Empty);
    check(set_shuffle_request(true, None), HttpMethod::Put, "/me/player/shuffle?state=true", None, ResponseKind::Empty);
    check(set_shuffle_request(false, Some("d")), HttpMethod::Put, "/me/player/shuffle?state=false&device_id=d", None, ResponseKind::Empty);
    check(set_repeat_request("track", None), HttpMethod::Put, "/me/player/repeat?state=track", None, ResponseKind::Empty);
    check(seek_request(25000, Some("d")), HttpMethod::Put, "/me/player/seek?position_ms=25000&device_id=d", None, ResponseKind::Empty);
    check(playback_state_request(), HttpMethod::Get, "/me/player", None, ResponseKind::OptionalJson);
    check(currently_playing_request(), HttpMethod::Get, "/me/player/currently-playing", None, ResponseKind::OptionalJson);
    check(recently_played_request(None), HttpMethod::Get, "/me/player/recently-played?limit=20", None, ResponseKind::Json);
    check(recently_played_request(Some(80)), HttpMethod::Get, "/me/player/recently-played?limit=50", None, ResponseKind::Json);
    check(queue_request(), HttpMethod::Get, "/me/player/queue", None, ResponseKind::Json);
}

#[test]
fn queue_uri_is_encoded() {
    check(
        add_to_queue_request("spotify:track:1", Some("d")),
        HttpMethod::Post,
        "/me/player/queue?uri=spotify%3Atrack%3A1&device_id=d",
        None,
        ResponseKind::Empty,
    );
}

#[test]
fn search_is_encoded() {
    check(
        search_request("a b/ü~-._", "track,artist", Some(5), Some(10)),
        HttpMethod::Get,
        "/search?q=a%20b%2F%C3%BC~-._&type=track%2Cartist&limit=5&offset=10",
        None,
        ResponseKind::Json,
    );
    check(
        search_request("Radiohead", "album", None, None),
        HttpMethod::Get,
        "/search?q=Radiohead&type=album&limit=20&offset=0",
        None,
        ResponseKind::Json,
    );
}

#[test]
fn playlist_requests() {
    check(current_user_request(), HttpMethod::Get, "/me", None, ResponseKind::Json);
    check(list_playlists_request(Some(99), Some(7)), HttpMethod::Get, "/me/playlists?limit=50&offset=7", None, ResponseKind::Json);
    check(get_playlist_request("p1"), HttpMethod::Get, "/playlists/p1", None, ResponseKind::Json);
    check(
        create_playlist_request("user1", "Road Trip", None, None),
        HttpMethod::Post,
        "/users/user1/playlists",
        Some(object(vec![("name", text("Road Trip"))])),
        ResponseKind::Json,
    );
    check(
        create_playlist_request("user1", "Road Trip", Some("fun"), Some(false)),
        HttpMethod::Post,
        "/users/user1/playlists",
        Some(object(vec![("name", text("Road Trip")), ("description", text("fun")), ("public", JsonValue::Bool(false))])),
        ResponseKind::Json,
    );
    let uris = strings(&["u1", "u2"]);
    check(
        add_tracks_request("p1", &uris, Some(3)),
        HttpMethod::Post,
        "/playlists/p1/tracks",
        Some(object(vec![("uris", JsonValue::Array(vec![text("u1"), text("u2")])), ("position", JsonValue::Number(3))])),
        ResponseKind::Json,
    );
    check(
        remove_tracks_request("p1", &uris),
        HttpMethod::Delete,
        "/playlists/p1/tracks",
        Some(object(vec![(
            "tracks",
            JsonValue::Array(vec![object(vec![("uri", text("u1"))]), object(vec![("uri", text("u2"))])]),
        )])),
        ResponseKind::Empty,
    );
    check(
        reorder_request("p1", 4, 0, None),
        HttpMethod::Put,
        "/playlists/p1/tracks",
        Some(object(vec![("range_start", JsonValue::Number(4)), ("insert_before", JsonValue::Number(0))])),
        ResponseKind::Json,
    );
    check(
        reorder_request("p1", 4, 0, Some(2)),
        HttpMethod::Put,
        "/playlists/p1/tracks",
        Some(object(vec![
            ("range_start", JsonValue::Number(4)),
            ("insert_before", JsonValue::Number(0)),
            ("range_length", JsonValue::Number(2)),
        ])),
        ResponseKind::Json,
    );
    check(
        replace_tracks_request("p1", &uris),
        HttpMethod::Put,
        "/playlists/p1/tracks",
        Some(object(vec![("uris", JsonValue::Array(vec![text("u1"), text("u2")]))])),
        ResponseKind::Json,
    );
    check(update_playlist_request("p1", None, None, None), HttpMethod::Put, "/playlists/p1", Some(object(vec![])), ResponseKind::Empty);
    check(
        update_playlist_request("p1", Some("New"), None, Some(true)),
        HttpMethod::Put,
        "/playlists/p1",
        Some(object(vec![("name", text("New")), ("public", JsonValue::Bool(true))])),
        ResponseKind::Empty,
    );
}

#[test]
fn library_requests() {
    check(saved_tracks_request(None, Some(20)), HttpMethod::Get, "/me/tracks?limit=20&offset=20", None, ResponseKind::Json);
    let ids = strings(&["a", "b"]);
    check(
        save_tracks_request(&ids),
        HttpMethod::Put,
        "/me/tracks",
        Some(object(vec![("ids", JsonValue::Array(vec![text("a"), text("b")]))])),
        ResponseKind::Empty,
    );
    check(
        remove_saved_tracks_request(&ids),
        HttpMethod::Delete,
        "/me/tracks",
        Some(object(vec![("ids", JsonValue::Array(vec![text("a"), text("b")]))])),
        ResponseKind::Empty,
    );
    assert_eq!(text_array_value(&[]), JsonValue::Array(vec![]));
}
