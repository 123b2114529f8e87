//! Where the authorization flow goes and what access it asks for.

use vstd::prelude::*;

verus! {

/// Spotify's authorization endpoint.
pub const AUTH_URL: &'static str = "https://accounts.spotify.com/authorize";

/// Spotify's token endpoint.
pub const TOKEN_URL: &'static str = "https://accounts.spotify.com/api/token";

/// Where the browser is sent back to after the user approves; the server
/// listens there for the callback.
pub const REDIRECT_URI: &'static str = "http://127.0.0.1:8888/callback";

/// The access that the server asks for, in order.
pub open spec fn scope_list() -> Seq<Seq<char>> {
    seq![
        "user-modify-playback-state"@,
        "user-read-playback-state"@,
        "user-read-currently-playing"@,
        "user-read-recently-played"@,
        "playlist-read-private"@,
        "playlist-read-collaborative"@,
        "playlist-modify-private"@,
        "playlist-modify-public"@,
        "user-library-read"@,
        "user-library-modify"@,
    ]
}

/// The scopes that the authorization asks for.
pub fn scopes() -> (res: Vec<&'static str>)
    ensures
        res@.map_values(|s: &str| s@) == scope_list(),
{
    let mut res: Vec<&'static str> = Vec::new();
    res.push("user-modify-playback-state");
    res.push("user-read-playback-state");
    res.push("user-read-currently-playing");
    res.push("user-read-recently-played");
    res.push("playlist-read-private");
    res.push("playlist-read-collaborative");
    res.push("playlist-modify-private");
    res.push("playlist-modify-public");
    res.push("user-library-read");
    res.push("user-library-modify");
    assert(res@.map_values(|s: &str| s@) =~= scope_list());
    res
}

} // verus!
