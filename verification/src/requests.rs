//! The Web API request that each client operation sends: method, path,
//! JSON body, and what a successful answer carries.

use vstd::prelude::*;

use crate::json::{
    body_of, json_of, lemma_array_content, lemma_object_content, members_of, push_item, push_member,
    text_array, Json, JsonValue,
};
use crate::text::{bool_string, bool_text, decimal, decimal_string, views};

verus! {

/// The HTTP method of a request.
#[derive(Debug, Clone, Copy, PartialEq, Eq, Structural)]
pub enum HttpMethod {
    Get,
    Put,
    Post,
    Delete,
}

/// What a successful answer to a request carries.
#[derive(Debug, Clone, Copy, PartialEq, Eq, Structural)]
pub enum ResponseKind {
    /// A JSON document that must be read.
    Json,
    /// A JSON document, or nothing at all when the answer is `204 No Content`.
    OptionalJson,
    /// Nothing that is read.
    Empty,
}

/// One request to the Web API. The path is relative to the API's base URL.
#[derive(Debug, PartialEq, Eq)]
pub struct ApiRequest {
    pub method: HttpMethod,
    pub path: String,
    pub body: Option<JsonValue>,
    pub response: ResponseKind,
}

/// The base URL of the Web API.
pub open spec fn base_url() -> Seq<char> {
    "https://api.spotify.com/v1"@
}

/// The full URL of a path of the Web API.
pub fn endpoint_url(path: &str) -> (res: String)
    ensures
        res@ == base_url() + path@,
{
    let mut res = String::from_str("https://api.spotify.com/v1");
    res.append(path);
    res
}

/// The page size that list requests ask for: the one given, 20 when none is
/// given, and never more than 50.
pub open spec fn page_limit(limit: Option<u32>) -> nat {
    let asked: nat = match limit {
        Some(l) => l as nat,
        None => 20,
    };
    if asked < 50 {
        asked
    } else {
        50
    }
}

/// The offset that list requests ask for: the one given, 0 when none is.
pub open spec fn page_offset(offset: Option<u32>) -> nat {
    match offset {
        Some(o) => o as nat,
        None => 0,
    }
}

/// `path`, followed by `sep` and the device's ID when one is given.
pub open spec fn with_device(path: Seq<char>, sep: Seq<char>, device_id: Option<&str>) -> Seq<char> {
    match device_id {
        Some(id) => path + sep + "device_id="@ + id@,
        None => path,
    }
}

/// The limit used for a list request.
pub fn clamp_limit(limit: Option<u32>) -> (res: u32)
    ensures
        res as nat == page_limit(limit),
        res <= 50,
{
    let asked: u32 = match limit {
        Some(l) => l,
        None => 20,
    };
    if asked < 50 {
        asked
    } else {
        50
    }
}

fn offset_or_zero(offset: Option<u32>) -> (res: u32)
    ensures
        res as nat == page_offset(offset),
{
    match offset {
        Some(o) => o,
        None => 0,
    }
}

fn append_device(path: &mut String, sep: &str, device_id: Option<&str>)
    ensures
        final(path)@ == with_device(old(path)@, sep@, device_id),
{
    match device_id {
        Some(id) => {
            path.append(sep);
            path.append("device_id=");
            path.append(id);
        },
        None => {},
    }
}

fn request(method: HttpMethod, path: String, body: Option<JsonValue>, response: ResponseKind) -> (res: ApiRequest)
    ensures
        res.method == method,
        res.path == path,
        res.body == body,
        res.response == response,
{
    ApiRequest { method, path, body, response }
}

/// A JSON array of the given strings.
pub fn text_array_value(items: &[String]) -> (res: JsonValue)
    ensures
        json_of(res) == text_array(views(items@)),
{
    let mut out: Vec<JsonValue> = Vec::new();
    let mut i: usize = 0;
    while i < items.len()
        invariant
            i <= items.len(),
            out@.len() == i,
            forall|j: int| 0 <= j < i ==> json_of(#[trigger] out@[j]) == Json::Text(items@[j]@),
        decreases items.len() - i,
    {
        out.push(JsonValue::Text(items[i].clone()));
        i = i + 1;
    }
    let res = JsonValue::Array(out);
    assert(json_of(res) =~= text_array(views(items@))) by {
        if let Json::Array(s) = json_of(res) {
            assert(s =~= views(items@).map_values(|t: Seq<char>| Json::Text(t)));
        }
    }
    res
}

/// What a request is: its method, its path, the content of its body, and
/// what a successful answer carries.
pub struct RequestView {
    pub method: HttpMethod,
    pub path: Seq<char>,
    pub body: Option<Json>,
    pub response: ResponseKind,
}

impl View for ApiRequest {
    type V = RequestView;

    open spec fn view(&self) -> RequestView {
        RequestView {
            method: self.method,
            path: self.path@,
            body: body_of(self.body),
            response: self.response,
        }
    }
}

/// A request without a body.
pub open spec fn bodiless(method: HttpMethod, path: Seq<char>, response: ResponseKind) -> RequestView {
    RequestView { method, path, body: None, response }
}

/// A request with a JSON body.
pub open spec fn with_body(method: HttpMethod, path: Seq<char>, body: Json, response: ResponseKind) -> RequestView {
    RequestView { method, path, body: Some(body), response }
}

/// Whether a byte is left as it is by URL encoding: ASCII letters and
/// digits, `-`, `.`, `_` and `~`.
pub open spec fn is_unreserved(b: u8) -> bool {
    (48 <= b <= 57) || (65 <= b <= 90) || (97 <= b <= 122) || b == 45 || b == 46 || b == 95 || b
        == 126
}

/// The upper-case hexadecimal digit for `d` (`0 <= d < 16`).
pub open spec fn hex_digit(d: nat) -> char {
    if d < 10 {
        (48 + d) as char
    } else {
        (55 + d) as char
    }
}

/// One byte, URL-encoded: itself when unreserved, else `%` and two hex digits.
pub open spec fn percent_encode_byte(b: u8) -> Seq<char> {
    if is_unreserved(b) {
        seq![b as char]
    } else {
        seq!['%', hex_digit(b as nat / 16), hex_digit(b as nat % 16)]
    }
}

/// Bytes, URL-encoded one by one.
pub open spec fn percent_encoded(bytes: Seq<u8>) -> Seq<char>
    decreases bytes.len(),
{
    if bytes.len() == 0 {
        Seq::empty()
    } else {
        percent_encode_byte(bytes[0]) + percent_encoded(bytes.drop_first())
    }
}

/// A string, URL-encoded: the bytes of its UTF-8 encoding, URL-encoded.
pub open spec fn url_encoded(s: Seq<char>) -> Seq<char> {
    percent_encoded(vstd::utf8::encode_utf8(s))
}

/// A character that URL encoding leaves as it is: an unreserved ASCII
/// character.
pub open spec fn is_plain_char(c: char) -> bool {
    (c as u32) < 128 && is_unreserved((c as u32) as u8)
}

proof fn lemma_percent_encoded_concat(a: Seq<u8>, b: Seq<u8>)
    ensures
        percent_encoded(a + b) == percent_encoded(a) + percent_encoded(b),
    decreases a.len(),
{
    if a.len() == 0 {
        assert(a + b =~= b);
        assert(percent_encoded(a) =~= Seq::<char>::empty());
        assert(percent_encoded(a) + percent_encoded(b) =~= percent_encoded(b));
    } else {
        lemma_percent_encoded_concat(a.drop_first(), b);
        assert((a + b).drop_first() =~= a.drop_first() + b);
        assert((a + b)[0] == a[0]);
        assert(percent_encoded(a + b) =~= percent_encode_byte(a[0]) + (percent_encoded(
            a.drop_first(),
        ) + percent_encoded(b)));
    }
}

/// URL encoding leaves a string of unreserved ASCII characters unchanged.
pub proof fn lemma_plain_text_unchanged(s: Seq<char>)
    requires
        forall|i: int| 0 <= i < s.len() ==> #[trigger] is_plain_char(s[i]),
    ensures
        url_encoded(s) == s,
    decreases s.len(),
{
    if s.len() == 0 {
        assert(vstd::utf8::encode_utf8(s) =~= Seq::<u8>::empty());
        assert(url_encoded(s) =~= s);
    } else {
        let c = s[0];
        let rest = s.drop_first();
        let v: u32 = c as u32;
        assert(is_plain_char(s[0]));
        assert(v & 0x7F == v && ((v & 0x7F) as u8) as u32 == v && (v as u8) as u32 == v) by (
            bit_vector)
            requires
                v < 128,
        ;
        assert forall|i: int| 0 <= i < rest.len() implies #[trigger] is_plain_char(rest[i]) by {
            assert(rest[i] == s[i + 1]);
            assert(is_plain_char(s[i + 1]));
        }
        lemma_plain_text_unchanged(rest);
        let b = (v & 0x7F) as u8;
        assert(vstd::utf8::encode_utf8(s) == seq![b] + vstd::utf8::encode_utf8(rest));
        lemma_percent_encoded_concat(seq![b], vstd::utf8::encode_utf8(rest));
        assert(b == v as u8);
        assert(is_unreserved(b));
        assert(seq![b].drop_first() =~= Seq::<u8>::empty());
        assert(percent_encoded(Seq::<u8>::empty()) == Seq::<char>::empty());
        assert(percent_encoded(seq![b]) =~= percent_encode_byte(b));
        vstd::utf8::char_u32_cast(c, v);
        assert(b as int == v as int);
        assert(b as char == v as char);
        assert(s =~= seq![c] + rest);
    }
}

/// Calls `urlencoding::encode`, which percent-encodes every byte of the
/// string's UTF-8 encoding except ASCII letters, digits, `-`, `.`, `_` and
/// `~`, writing `%` and two upper-case hexadecimal digits; the contract
/// claims exactly that.
#[verifier::external_body]
fn url_encode(s: &str) -> (res: String)
    ensures
        res@ == url_encoded(s@),
{
    urlencoding::encode(s).into_owned()
}

fn text(s: &str) -> (res: JsonValue)
    ensures
        json_of(res) == Json::Text(s@),
{
    JsonValue::Text(String::from_str(s))
}

fn number(n: u32) -> (res: JsonValue)
    ensures
        json_of(res) == Json::Number(n as nat),
{
    JsonValue::Number(n as u64)
}

fn path_with_number(prefix: &str, n: u64) -> (res: String)
    ensures
        res@ == prefix@ + decimal(n as nat),
{
    let mut res = String::from_str(prefix);
    let digits = decimal_string(n);
    res.append(digits.as_str());
    res
}

fn path_with_text(prefix: &str, s: &str) -> (res: String)
    ensures
        res@ == prefix@ + s@,
{
    let mut res = String::from_str(prefix);
    res.append(s);
    res
}

/// The body of a `play` request: the context and the tracks that are
/// given, or no body when neither is.
pub open spec fn play_body(context_uri: Option<&str>, uris: Option<&[String]>) -> Option<Json> {
    if context_uri is None && uris is None {
        None
    } else {
        Some(
            Json::Object(
                match context_uri {
                    Some(c) => seq![("context_uri"@, Json::Text(c@))],
                    None => Seq::empty(),
                } + match uris {
                    Some(u) => seq![("uris"@, text_array(views(u@)))],
                    None => Seq::empty(),
                },
            ),
        )
    }
}

/// Starts or resumes playback.
pub fn play_request(context_uri: Option<&str>, uris: Option<&[String]>, device_id: Option<&str>) -> (res: ApiRequest)
    ensures
        res@ == (RequestView {
            method: HttpMethod::Put,
            path: with_device("/me/player/play"@, "?"@, device_id),
            body: play_body(context_uri, uris),
            response: ResponseKind::Empty,
        }),
{
    let mut path = String::from_str("/me/player/play");
    append_device(&mut path, "?", device_id);
    let body = if context_uri.is_some() || uris.is_some() {
        let mut members: Vec<(String, JsonValue)> = Vec::new();
        match context_uri {
            Some(ctx) => push_member(&mut members, "context_uri", text(ctx)),
            None => {},
        }
        match uris {
            Some(u) => push_member(&mut members, "uris", text_array_value(u)),
            None => {},
        }
        proof {
            lemma_object_content(members);
            assert(members_of(members@) =~= match context_uri {
                Some(c) => seq![("context_uri"@, Json::Text(c@))],
                None => Seq::empty(),
            } + match uris {
                Some(u) => seq![("uris"@, text_array(views(u@)))],
                None => Seq::empty(),
            });
        }
        Some(JsonValue::Object(members))
    } else {
        None
    };
    request(HttpMethod::Put, path, body, ResponseKind::Empty)
}

/// Pauses playback.
pub fn pause_request(device_id: Option<&str>) -> (res: ApiRequest)
    ensures
        res@ == bodiless(
            HttpMethod::Put,
            with_device("/me/player/pause"@, "?"@, device_id),
            ResponseKind::Empty,
        ),
{
    let mut path = String::from_str("/me/player/pause");
    append_device(&mut path, "?", device_id);
    request(HttpMethod::Put, path, None, ResponseKind::Empty)
}

/// Skips to the next track.
pub fn next_track_request(device_id: Option<&str>) -> (res: ApiRequest)
    ensures
        res@ == bodiless(
            HttpMethod::Post,
            with_device("/me/player/next"@, "?"@, device_id),
            ResponseKind::Empty,
        ),
{
    let mut path = String::from_str("/me/player/next");
    append_device(&mut path, "?", device_id);
    request(HttpMethod::Post, path, None, ResponseKind::Empty)
}

/// Skips to the previous track.
pub fn previous_track_request(device_id: Option<&str>) -> (res: ApiRequest)
    ensures
        res@ == bodiless(
            HttpMethod::Post,
            with_device("/me/player/previous"@, "?"@, device_id),
            ResponseKind::Empty,
        ),
{
    let mut path = String::from_str("/me/player/previous");
    append_device(&mut path, "?", device_id);
    request(HttpMethod::Post, path, None, ResponseKind::Empty)
}

/// Sets the volume.
pub fn set_volume_request(volume_percent: u32, device_id: Option<&str>) -> (res: ApiRequest)
    ensures
        res@ == bodiless(
            HttpMethod::Put,
            with_device(
                "/me/player/volume?volume_percent="@ + decimal(volume_percent as nat),
                "&"@,
                device_id,
            ),
            ResponseKind::Empty,
        ),
{
    let mut path = path_with_number("/me/player/volume?volume_percent=", volume_percent as u64);
    append_device(&mut path, "&", device_id);
    request(HttpMethod::Put, path, None, ResponseKind::Empty)
}

/// Turns shuffle on or off.
pub fn set_shuffle_request(state: bool, device_id: Option<&str>) -> (res: ApiRequest)
    ensures
        res@ == bodiless(
            HttpMethod::Put,
            with_device("/me/player/shuffle?state="@ + bool_text(state), "&"@, device_id),
            ResponseKind::Empty,
        ),
{
    let shown = bool_string(state);
    let mut path = path_with_text("/me/player/shuffle?state=", shown.as_str());
    append_device(&mut path, "&", device_id);
    request(HttpMethod::Put, path, None, ResponseKind::Empty)
}

/// Sets the repeat mode.
pub fn set_repeat_request(state: &str, device_id: Option<&str>) -> (res: ApiRequest)
    ensures
        res@ == bodiless(
            HttpMethod::Put,
            with_device("/me/player/repeat?state="@ + state@, "&"@, device_id),
            ResponseKind::Empty,
        ),
{
    let mut path = path_with_text("/me/player/repeat?state=", state);
    append_device(&mut path, "&", device_id);
    request(HttpMethod::Put, path, None, ResponseKind::Empty)
}

/// Seeks in the current track.
pub fn seek_request(position_ms: u64, device_id: Option<&str>) -> (res: ApiRequest)
    ensures
        res@ == bodiless(
            HttpMethod::Put,
            with_device(
                "/me/player/seek?position_ms="@ + decimal(position_ms as nat),
                "&"@,
                device_id,
            ),
            ResponseKind::Empty,
        ),
{
    let mut path = path_with_number("/me/player/seek?position_ms=", position_ms);
    append_device(&mut path, "&", device_id);
    request(HttpMethod::Put, path, None, ResponseKind::Empty)
}

/// Reads the playback state; the answer is empty when nothing plays.
pub fn playback_state_request() -> (res: ApiRequest)
    ensures
        res@ == bodiless(HttpMethod::Get, "/me/player"@, ResponseKind::OptionalJson),
{
    request(HttpMethod::Get, String::from_str("/me/player"), None, ResponseKind::OptionalJson)
}

/// Reads the currently playing track; the answer is empty when nothing plays.
pub fn currently_playing_request() -> (res: ApiRequest)
    ensures
        res@ == bodiless(
            HttpMethod::Get,
            "/me/player/currently-playing"@,
            ResponseKind::OptionalJson,
        ),
{
    request(
        HttpMethod::Get,
        String::from_str("/me/player/currently-playing"),
        None,
        ResponseKind::OptionalJson,
    )
}

/// Reads the recently played tracks.
pub fn recently_played_request(limit: Option<u32>) -> (res: ApiRequest)
    ensures
        res@ == bodiless(
            HttpMethod::Get,
            "/me/player/recently-played?limit="@ + decimal(page_limit(limit)),
            ResponseKind::Json,
        ),
{
    let n: u32 = clamp_limit(limit);
    let path = path_with_number("/me/player/recently-played?limit=", n as u64);
    request(HttpMethod::Get, path, None, ResponseKind::Json)
}

/// Reads the current user's profile.
pub fn current_user_request() -> (res: ApiRequest)
    ensures
        res@ == bodiless(HttpMethod::Get, "/me"@, ResponseKind::Json),
{
    request(HttpMethod::Get, String::from_str("/me"), None, ResponseKind::Json)
}

fn paged_path(prefix: &str, limit: Option<u32>, offset: Option<u32>) -> (res: String)
    ensures
        res@ == prefix@ + decimal(page_limit(limit)) + "&offset="@ + decimal(page_offset(offset)),
{
    let n: u32 = clamp_limit(limit);
    let mut path = path_with_number(prefix, n as u64);
    path.append("&offset=");
    let o = decimal_string(offset_or_zero(offset) as u64);
    path.append(o.as_str());
    path
}

/// Lists the current user's playlists.
pub fn list_playlists_request(limit: Option<u32>, offset: Option<u32>) -> (res: ApiRequest)
    ensures
        res@ == bodiless(
            HttpMethod::Get,
            "/me/playlists?limit="@ + decimal(page_limit(limit)) + "&offset="@ + decimal(
                page_offset(offset),
            ),
            ResponseKind::Json,
        ),
{
    let path = paged_path("/me/playlists?limit=", limit, offset);
    request(HttpMethod::Get, path, None, ResponseKind::Json)
}

/// Reads a playlist.
pub fn get_playlist_request(playlist_id: &str) -> (res: ApiRequest)
    ensures
        res@ == bodiless(HttpMethod::Get, "/playlists/"@ + playlist_id@, ResponseKind::Json),
{
    let path = path_with_text("/playlists/", playlist_id);
    request(HttpMethod::Get, path, None, ResponseKind::Json)
}

/// The body of a `create_playlist` request.
pub open spec fn create_playlist_body(name: Seq<char>, description: Option<&str>, public: Option<bool>) -> Json {
    Json::Object(
        seq![("name"@, Json::Text(name))] + match description {
            Some(d) => seq![("description"@, Json::Text(d@))],
            None => Seq::empty(),
        } + match public {
            Some(p) => seq![("public"@, Json::Bool(p))],
            None => Seq::empty(),
        },
    )
}

/// Creates a playlist for the user with the given ID.
pub fn create_playlist_request(user_id: &str, name: &str, description: Option<&str>, public: Option<bool>) -> (res: ApiRequest)
    ensures
        res@ == with_body(
            HttpMethod::Post,
            "/users/"@ + user_id@ + "/playlists"@,
            create_playlist_body(name@, description, public),
            ResponseKind::Json,
        ),
{
    let mut path = path_with_text("/users/", user_id);
    path.append("/playlists");
    let mut members: Vec<(String, JsonValue)> = Vec::new();
    push_member(&mut members, "name", text(name));
    match description {
        Some(d) => push_member(&mut members, "description", text(d)),
        None => {},
    }
    match public {
        Some(p) => push_member(&mut members, "public", JsonValue::Bool(p)),
        None => {},
    }
    proof {
        lemma_object_content(members);
        if let Json::Object(m) = create_playlist_body(name@, description, public) {
            assert(members_of(members@) =~= m);
        }
    }
    request(HttpMethod::Post, path, Some(JsonValue::Object(members)), ResponseKind::Json)
}

/// The body of an `add_tracks_to_playlist` request.
pub open spec fn add_tracks_body(uris: Seq<Seq<char>>, position: Option<u32>) -> Json {
    Json::Object(
        seq![("uris"@, text_array(uris))] + match position {
            Some(p) => seq![("position"@, Json::Number(p as nat))],
            None => Seq::empty(),
        },
    )
}

/// Adds tracks to a playlist, at the end or at the given position.
pub fn add_tracks_request(playlist_id: &str, uris: &[String], position: Option<u32>) -> (res: ApiRequest)
    ensures
        res@ == with_body(
            HttpMethod::Post,
            "/playlists/"@ + playlist_id@ + "/tracks"@,
            add_tracks_body(views(uris@), position),
            ResponseKind::Json,
        ),
{
    let mut path = path_with_text("/playlists/", playlist_id);
    path.append("/tracks");
    let mut members: Vec<(String, JsonValue)> = Vec::new();
    push_member(&mut members, "uris", text_array_value(uris));
    match position {
        Some(p) => push_member(&mut members, "position", number(p)),
        None => {},
    }
    proof {
        lemma_object_content(members);
        if let Json::Object(m) = add_tracks_body(views(uris@), position) {
            assert(members_of(members@) =~= m);
        }
    }
    request(HttpMethod::Post, path, Some(JsonValue::Object(members)), ResponseKind::Json)
}

/// The body of a `remove_tracks_from_playlist` request: one object with the
/// URI per track.
pub open spec fn remove_tracks_body(uris: Seq<Seq<char>>) -> Json {
    Json::Object(
        seq![
            (
                "tracks"@,
                Json::Array(
                    uris.map_values(|u: Seq<char>| Json::Object(seq![("uri"@, Json::Text(u))])),
                ),
            ),
        ],
    )
}

/// Removes tracks from a playlist.
pub fn remove_tracks_request(playlist_id: &str, uris: &[String]) -> (res: ApiRequest)
    ensures
        res@ == with_body(
            HttpMethod::Delete,
            "/playlists/"@ + playlist_id@ + "/tracks"@,
            remove_tracks_body(views(uris@)),
            ResponseKind::Empty,
        ),
{
    let mut path = path_with_text("/playlists/", playlist_id);
    path.append("/tracks");
    let ghost wanted = views(uris@).map_values(
        |u: Seq<char>| Json::Object(seq![("uri"@, Json::Text(u))]),
    );
    let mut tracks: Vec<JsonValue> = Vec::new();
    let mut i: usize = 0;
    while i < uris.len()
        invariant
            i <= uris.len(),
            wanted == views(uris@).map_values(
                |u: Seq<char>| Json::Object(seq![("uri"@, Json::Text(u))]),
            ),
            crate::json::items_of(tracks@) =~= wanted.take(i as int),
        decreases uris.len() - i,
    {
        let mut member: Vec<(String, JsonValue)> = Vec::new();
        push_member(&mut member, "uri", text(uris[i].as_str()));
        proof {
            lemma_object_content(member);
            assert(members_of(member@) =~= seq![("uri"@, Json::Text(uris@[i as int]@))]);
        }
        push_item(&mut tracks, JsonValue::Object(member));
        assert(wanted.take(i + 1) =~= wanted.take(i as int).push(wanted[i as int]));
        i = i + 1;
    }
    assert(wanted.take(uris.len() as int) =~= wanted);
    proof {
        lemma_array_content(tracks);
    }
    let mut members: Vec<(String, JsonValue)> = Vec::new();
    push_member(&mut members, "tracks", JsonValue::Array(tracks));
    proof {
        lemma_object_content(members);
        if let Json::Object(m) = remove_tracks_body(views(uris@)) {
            assert(members_of(members@) =~= m);
        }
    }
    request(HttpMethod::Delete, path, Some(JsonValue::Object(members)), ResponseKind::Empty)
}

/// The body of a `reorder_playlist_tracks` request.
pub open spec fn reorder_body(range_start: u32, insert_before: u32, range_length: Option<u32>) -> Json {
    Json::Object(
        seq![
            ("range_start"@, Json::Number(range_start as nat)),
            ("insert_before"@, Json::Number(insert_before as nat)),
        ] + match range_length {
            Some(l) => seq![("range_length"@, Json::Number(l as nat))],
            None => Seq::empty(),
        },
    )
}

/// Moves a range of a playlist's tracks to another position.
pub fn reorder_request(playlist_id: &str, range_start: u32, insert_before: u32, range_length: Option<u32>) -> (res: ApiRequest)
    ensures
        res@ == with_body(
            HttpMethod::Put,
            "/playlists/"@ + playlist_id@ + "/tracks"@,
            reorder_body(range_start, insert_before, range_length),
            ResponseKind::Json,
        ),
{
    let mut path = path_with_text("/playlists/", playlist_id);
    path.append("/tracks");
    let mut members: Vec<(String, JsonValue)> = Vec::new();
    push_member(&mut members, "range_start", number(range_start));
    push_member(&mut members, "insert_before", number(insert_before));
    match range_length {
        Some(l) => push_member(&mut members, "range_length", number(l)),
        None => {},
    }
    proof {
        lemma_object_content(members);
        if let Json::Object(m) = reorder_body(range_start, insert_before, range_length) {
            assert(members_of(members@) =~= m);
        }
    }
    request(HttpMethod::Put, path, Some(JsonValue::Object(members)), ResponseKind::Json)
}

/// The body of a request that carries a list of strings under one key.
pub open spec fn list_body(key: Seq<char>, items: Seq<Seq<char>>) -> Json {
    Json::Object(seq![(key, text_array(items))])
}

fn list_value(key: &str, items: &[String]) -> (res: JsonValue)
    ensures
        json_of(res) == list_body(key@, views(items@)),
{
    let mut members: Vec<(String, JsonValue)> = Vec::new();
    push_member(&mut members, key, text_array_value(items));
    proof {
        lemma_object_content(members);
        if let Json::Object(m) = list_body(key@, views(items@)) {
            assert(members_of(members@) =~= m);
        }
    }
    JsonValue::Object(members)
}

/// Replaces all the tracks of a playlist.
pub fn replace_tracks_request(playlist_id: &str, uris: &[String]) -> (res: ApiRequest)
    ensures
        res@ == with_body(
            HttpMethod::Put,
            "/playlists/"@ + playlist_id@ + "/tracks"@,
            list_body("uris"@, views(uris@)),
            ResponseKind::Json,
        ),
{
    let mut path = path_with_text("/playlists/", playlist_id);
    path.append("/tracks");
    request(HttpMethod::Put, path, Some(list_value("uris", uris)), ResponseKind::Json)
}

/// The body of an `update_playlist` request: exactly the details given.
pub open spec fn update_playlist_body(name: Option<&str>, description: Option<&str>, public: Option<bool>) -> Json {
    Json::Object(
        match name {
            Some(n) => seq![("name"@, Json::Text(n@))],
            None => Seq::empty(),
        } + match description {
            Some(d) => seq![("description"@, Json::Text(d@))],
            None => Seq::empty(),
        } + match public {
            Some(p) => seq![("public"@, Json::Bool(p))],
            None => Seq::empty(),
        },
    )
}

/// Changes a playlist's details.
pub fn update_playlist_request(playlist_id: &str, name: Option<&str>, description: Option<&str>, public: Option<bool>) -> (res: ApiRequest)
    ensures
        res@ == with_body(
            HttpMethod::Put,
            "/playlists/"@ + playlist_id@,
            update_playlist_body(name, description, public),
            ResponseKind::Empty,
        ),
{
    let path = path_with_text("/playlists/", playlist_id);
    let mut members: Vec<(String, JsonValue)> = Vec::new();
    proof {
        assert(members_of(members@) =~= Seq::empty());
    }
    match name {
        Some(n) => push_member(&mut members, "name", text(n)),
        None => {},
    }
    match description {
        Some(d) => push_member(&mut members, "description", text(d)),
        None => {},
    }
    match public {
        Some(p) => push_member(&mut members, "public", JsonValue::Bool(p)),
        None => {},
    }
    proof {
        lemma_object_content(members);
        if let Json::Object(m) = update_playlist_body(name, description, public) {
            assert(members_of(members@) =~= m);
        }
    }
    request(HttpMethod::Put, path, Some(JsonValue::Object(members)), ResponseKind::Empty)
}

/// Adds a track to the playback queue; the URI is URL-encoded.
pub fn add_to_queue_request(uri: &str, device_id: Option<&str>) -> (res: ApiRequest)
    ensures
        res@ == bodiless(
            HttpMethod::Post,
            with_device("/me/player/queue?uri="@ + url_encoded(uri@), "&"@, device_id),
            ResponseKind::Empty,
        ),
{
    let encoded = url_encode(uri);
    let mut path = path_with_text("/me/player/queue?uri=", encoded.as_str());
    append_device(&mut path, "&", device_id);
    request(HttpMethod::Post, path, None, ResponseKind::Empty)
}

/// Reads the playback queue.
pub fn queue_request() -> (res: ApiRequest)
    ensures
        res@ == bodiless(HttpMethod::Get, "/me/player/queue"@, ResponseKind::Json),
{
    request(HttpMethod::Get, String::from_str("/me/player/queue"), None, ResponseKind::Json)
}

/// Searches the catalogue; the query and the types are URL-encoded.
pub fn search_request(query: &str, search_type: &str, limit: Option<u32>, offset: Option<u32>) -> (res: ApiRequest)
    ensures
        res@ == bodiless(
            HttpMethod::Get,
            "/search?q="@ + url_encoded(query@) + "&type="@ + url_encoded(search_type@)
                + "&limit="@ + decimal(page_limit(limit)) + "&offset="@ + decimal(
                page_offset(offset),
            ),
            ResponseKind::Json,
        ),
{
    let q = url_encode(query);
    let t = url_encode(search_type);
    let mut path = path_with_text("/search?q=", q.as_str());
    path.append("&type=");
    path.append(t.as_str());
    path.append("&limit=");
    let n = decimal_string(clamp_limit(limit) as u64);
    path.append(n.as_str());
    path.append("&offset=");
    let o = decimal_string(offset_or_zero(offset) as u64);
    path.append(o.as_str());
    request(HttpMethod::Get, path, None, ResponseKind::Json)
}

/// Reads a page of the user's Liked Songs.
pub fn saved_tracks_request(limit: Option<u32>, offset: Option<u32>) -> (res: ApiRequest)
    ensures
        res@ == bodiless(
            HttpMethod::Get,
            "/me/tracks?limit="@ + decimal(page_limit(limit)) + "&offset="@ + decimal(
                page_offset(offset),
            ),
            ResponseKind::Json,
        ),
{
    let path = paged_path("/me/tracks?limit=", limit, offset);
    request(HttpMethod::Get, path, None, ResponseKind::Json)
}

/// Saves tracks to the user's Liked Songs.
pub fn save_tracks_request(track_ids: &[String]) -> (res: ApiRequest)
    ensures
        res@ == with_body(
            HttpMethod::Put,
            "/me/tracks"@,
            list_body("ids"@, views(track_ids@)),
            ResponseKind::Empty,
        ),
{
    request(
        HttpMethod::Put,
        String::from_str("/me/tracks"),
        Some(list_value("ids", track_ids)),
        ResponseKind::Empty,
    )
}

/// Removes tracks from the user's Liked Songs.
pub fn remove_saved_tracks_request(track_ids: &[String]) -> (res: ApiRequest)
    ensures
        res@ == with_body(
            HttpMethod::Delete,
            "/me/tracks"@,
            list_body("ids"@, views(track_ids@)),
            ResponseKind::Empty,
        ),
{
    request(
        HttpMethod::Delete,
        String::from_str("/me/tracks"),
        Some(list_value("ids", track_ids)),
        ResponseKind::Empty,
    )
}

/// A list request never asks for more than 50 items; it asks for the number
/// given when that is at most 50, and for 20 when none is given.
pub proof fn lemma_page_limit(limit: Option<u32>)
    ensures
        page_limit(limit) <= 50,
        limit is None ==> page_limit(limit) == 20,
        forall|l: u32| limit == Some(l) && l <= 50 ==> page_limit(limit) == l,
        forall|l: u32| limit == Some(l) && l > 50 ==> page_limit(limit) == 50,
{
}

/// The offset of a list request is the one given, whatever its size, and 0
/// when none is given: unlike the page size it is never clamped.
pub proof fn lemma_page_offset(offset: Option<u32>)
    ensures
        offset is None ==> page_offset(offset) == 0,
        forall|o: u32| offset == Some(o) ==> page_offset(offset) == o,
        forall|a: u32, b: u32| page_offset(Some(a)) == page_offset(Some(b)) ==> a == b,
{
}

} // verus!
