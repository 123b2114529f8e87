//! The texts that the server answers each tool call with.

use vstd::prelude::*;

use crate::models::{
    CurrentlyPlaying, FullArtist, FullPlaylist, FullTrack, Paginated, PlayHistory,
    PlaybackState, PlaylistOwner, PlaylistTrack, Queue, RecentlyPlayed, SavedTrack, SavedTracks,
    SearchResult, SimplifiedAlbum, SimplifiedArtist, SimplifiedPlaylist, UserPlaylists,
};
use crate::text::{
    bool_string, bool_text, decimal, decimal_string, join, joined, padded2, padded2_string,
    push_line, views,
};

verus! {

/// `m:ss` for a duration in milliseconds: whole minutes, then the seconds
/// left over, always with two digits.
pub open spec fn duration_text(ms: nat) -> Seq<char> {
    decimal(ms / 1000 / 60) + ":"@ + padded2(ms / 1000 % 60)
}

/// The artists' names separated by `, `.
pub open spec fn artists_text(artists: Seq<SimplifiedArtist>) -> Seq<char> {
    joined(artists.map_values(|a: SimplifiedArtist| a.name@), ", "@)
}

/// The album's name, or `Unknown Album` when the track has none.
pub open spec fn album_text(track: FullTrack) -> Seq<char> {
    match track.album {
        Some(album) => album.name@,
        None => "Unknown Album"@,
    }
}

/// `"Name" by Artists (Album: Album) [m:ss] - uri`.
pub open spec fn track_text(track: FullTrack) -> Seq<char> {
    "\""@ + track.name@ + "\" by "@ + artists_text(track.artists@) + " (Album: "@ + album_text(
        track,
    ) + ") ["@ + duration_text(track.duration_ms as nat) + "] - "@ + track.uri@
}

/// The lines about the current track: the track, then the progress when
/// it is known; nothing when no track is playing.
pub open spec fn track_progress_lines(item: Option<FullTrack>, progress: Option<u64>) -> Seq<
    Seq<char>,
> {
    match item {
        None => Seq::empty(),
        Some(track) => seq!["Track: "@ + track_text(track)] + match progress {
            None => Seq::empty(),
            Some(p) => seq![
                "Progress: "@ + duration_text(p as nat) + " / "@ + duration_text(
                    track.duration_ms as nat,
                ),
            ],
        },
    }
}

/// The lines that describe a playback state.
pub open spec fn playback_lines(state: PlaybackState) -> Seq<Seq<char>> {
    seq![
        "Device: "@ + state.device.name@ + " ("@ + state.device.device_type@ + ")"@,
        "Playing: "@ + bool_text(state.is_playing),
        "Shuffle: "@ + bool_text(state.shuffle_state),
        "Repeat: "@ + state.repeat_state@,
    ] + match state.device.volume_percent {
        Some(v) => seq!["Volume: "@ + decimal(v as nat) + "%"@],
        None => Seq::empty(),
    } + track_progress_lines(state.item, state.progress_ms)
}

/// The answer of `get_playback_state`.
pub open spec fn playback_report(state: Option<PlaybackState>) -> Seq<char> {
    match state {
        None => "No active playback session."@,
        Some(s) => joined(playback_lines(s), "\n"@),
    }
}

/// The answer of `get_currently_playing`.
pub open spec fn currently_playing_report(current: Option<CurrentlyPlaying>) -> Seq<char> {
    match current {
        None => "Nothing is currently playing."@,
        Some(c) => joined(
            seq!["Playing: "@ + bool_text(c.is_playing)] + track_progress_lines(
                c.item,
                c.progress_ms,
            ),
            "\n"@,
        ),
    }
}

/// Formats a duration in milliseconds as `m:ss`.
pub fn format_duration(ms: u64) -> (res: String)
    ensures
        res@ == duration_text(ms as nat),
{
    let secs: u64 = ms / 1000;
    let mins: u64 = secs / 60;
    let secs: u64 = secs % 60;
    let mut res = decimal_string(mins);
    res.append(":");
    let two = padded2_string(secs);
    res.append(two.as_str());
    res
}

/// Joins the artists' names with `, `.
pub fn format_artists(artists: &[SimplifiedArtist]) -> (res: String)
    ensures
        res@ == artists_text(artists@),
{
    let ghost names = artists@.map_values(|a: SimplifiedArtist| a.name@);
    let mut parts: Vec<String> = Vec::new();
    let mut i: usize = 0;
    while i < artists.len()
        invariant
            i <= artists.len(),
            names == artists@.map_values(|a: SimplifiedArtist| a.name@),
            views(parts@) =~= names.take(i as int),
        decreases artists.len() - i,
    {
        let name = artists[i].name.clone();
        push_line(&mut parts, name);
        assert(names.take(i + 1) =~= names.take(i as int).push(names[i as int]));
        i = i + 1;
    }
    assert(names.take(artists.len() as int) =~= names);
    join(&parts, ", ")
}

/// Describes a track on one line.
pub fn format_track(track: &FullTrack) -> (res: String)
    ensures
        res@ == track_text(*track),
{
    let artists = format_artists(track.artists.as_slice());
    let mut res = String::from_str("\"");
    res.append(track.name.as_str());
    res.append("\" by ");
    res.append(artists.as_str());
    res.append(" (Album: ");
    match &track.album {
        Some(album) => res.append(album.name.as_str()),
        None => res.append("Unknown Album"),
    }
    res.append(") [");
    let duration = format_duration(track.duration_ms);
    res.append(duration.as_str());
    res.append("] - ");
    res.append(track.uri.as_str());
    res
}

fn push_track_progress(lines: &mut Vec<String>, item: &Option<FullTrack>, progress: Option<u64>)
    ensures
        views(final(lines)@) == views(old(lines)@) + track_progress_lines(*item, progress),
{
    match item {
        None => {
            assert(views(lines@) =~= views(lines@) + Seq::<Seq<char>>::empty());
        },
        Some(track) => {
            let ghost before = views(lines@);
            let mut line = String::from_str("Track: ");
            let described = format_track(track);
            line.append(described.as_str());
            push_line(lines, line);
            match progress {
                None => {
                    assert(views(lines@) =~= before + track_progress_lines(*item, progress));
                },
                Some(p) => {
                    let mut line = String::from_str("Progress: ");
                    let at = format_duration(p);
                    line.append(at.as_str());
                    line.append(" / ");
                    let whole = format_duration(track.duration_ms);
                    line.append(whole.as_str());
                    push_line(lines, line);
                    assert(views(lines@) =~= before + track_progress_lines(*item, progress));
                },
            }
        },
    }
}

/// The answer of `get_playback_state`.
pub fn playback_state_text(state: &Option<PlaybackState>) -> (res: String)
    ensures
        res@ == playback_report(*state),
{
    match state {
        None => String::from_str("No active playback session."),
        Some(s) => {
            let mut lines: Vec<String> = Vec::new();
            let mut line = String::from_str("Device: ");
            line.append(s.device.name.as_str());
            line.append(" (");
            line.append(s.device.device_type.as_str());
            line.append(")");
            push_line(&mut lines, line);
            let mut line = String::from_str("Playing: ");
            let b = bool_string(s.is_playing);
            line.append(b.as_str());
            push_line(&mut lines, line);
            let mut line = String::from_str("Shuffle: ");
            let b = bool_string(s.shuffle_state);
            line.append(b.as_str());
            push_line(&mut lines, line);
            let mut line = String::from_str("Repeat: ");
            line.append(s.repeat_state.as_str());
            push_line(&mut lines, line);
            match s.device.volume_percent {
                Some(v) => {
                    let mut line = String::from_str("Volume: ");
                    let n = decimal_string(v as u64);
                    line.append(n.as_str());
                    line.append("%");
                    push_line(&mut lines, line);
                },
                None => {},
            }
            push_track_progress(&mut lines, &s.item, s.progress_ms);
            assert(views(lines@) =~= playback_lines(*s));
            join(&lines, "\n")
        },
    }
}

/// The answer of `get_currently_playing`.
pub fn currently_playing_text(current: &Option<CurrentlyPlaying>) -> (res: String)
    ensures
        res@ == currently_playing_report(*current),
{
    match current {
        None => String::from_str("Nothing is currently playing."),
        Some(c) => {
            let mut lines: Vec<String> = Vec::new();
            let mut line = String::from_str("Playing: ");
            let b = bool_string(c.is_playing);
            line.append(b.as_str());
            push_line(&mut lines, line);
            push_track_progress(&mut lines, &c.item, c.progress_ms);
            assert(views(lines@) =~= seq!["Playing: "@ + bool_text(c.is_playing)]
                + track_progress_lines(c.item, c.progress_ms));
            join(&lines, "\n")
        },
    }
}


/// `n. ` followed by the track, after `indent`.
pub open spec fn numbered_track(indent: Seq<char>, n: nat, track: FullTrack) -> Seq<char> {
    indent + decimal(n) + ". "@ + track_text(track)
}

/// The tracks numbered from 1, one per line.
pub open spec fn numbered_tracks(indent: Seq<char>, tracks: Seq<FullTrack>) -> Seq<Seq<char>> {
    Seq::new(tracks.len(), |i: int| numbered_track(indent, (i + 1) as nat, tracks[i]))
}

/// One entry of the listening history, numbered `n`.
pub open spec fn history_line(n: nat, item: PlayHistory) -> Seq<char> {
    decimal(n) + ". "@ + track_text(item.track) + " (played at "@ + item.played_at@ + ")"@
}

/// The answer of `get_recently_played`.
pub open spec fn recently_played_report(recent: RecentlyPlayed) -> Seq<char> {
    let items = recent.items@;
    if items.len() == 0 {
        "No recently played tracks."@
    } else {
        joined(
            seq!["Recently played ("@ + decimal(items.len()) + " tracks):"@] + Seq::new(
                items.len(),
                |i: int| history_line((i + 1) as nat, items[i]),
            ),
            "\n"@,
        )
    }
}

/// The lines that describe the playback queue.
pub open spec fn queue_lines(queue: Queue) -> Seq<Seq<char>> {
    let next = queue.queue@;
    let now = match queue.currently_playing {
        Some(track) => seq!["Now playing: "@ + track_text(track)],
        None => Seq::empty(),
    };
    let upcoming = if next.len() == 0 {
        seq!["Queue is empty."@]
    } else {
        seq!["\nUp next ("@ + decimal(next.len()) + " tracks):"@] + numbered_tracks(""@, next)
    };
    now + upcoming
}

/// The answer of `get_queue`.
pub open spec fn queue_report(queue: Queue) -> Seq<char> {
    joined(queue_lines(queue), "\n"@)
}

/// The text of an optional string, empty when absent.
pub open spec fn or_empty(s: Option<String>) -> Seq<char> {
    match s {
        Some(v) => v@,
        None => Seq::empty(),
    }
}

/// The owner's display name, or its ID when it has none.
pub open spec fn owner_text(owner: PlaylistOwner) -> Seq<char> {
    match owner.display_name {
        Some(name) => name@,
        None => owner.id@,
    }
}

/// `public` when the playlist is known to be public, else `private`.
pub open spec fn visibility_text(public: Option<bool>) -> Seq<char> {
    if public == Some(true) {
        "public"@
    } else {
        "private"@
    }
}

/// The genres of an artist separated by `, `, empty when unknown.
pub open spec fn genres_text(artist: FullArtist) -> Seq<char> {
    match artist.genres {
        Some(genres) => joined(views(genres@), ", "@),
        None => Seq::empty(),
    }
}

/// An artist found by a search, numbered `n`.
pub open spec fn artist_line(n: nat, artist: FullArtist) -> Seq<char> {
    "  "@ + decimal(n) + ". "@ + artist.name@ + " (Genres: "@ + genres_text(artist) + ") - "@
        + or_empty(artist.external_urls.spotify)
}

/// An album found by a search, numbered `n`.
pub open spec fn album_line(n: nat, album: SimplifiedAlbum) -> Seq<char> {
    "  "@ + decimal(n) + ". \""@ + album.name@ + "\" by "@ + artists_text(album.artists@) + " ("@
        + or_empty(album.release_date) + ") - "@ + or_empty(album.external_urls.spotify)
}

/// A playlist found by a search, numbered `n`.
pub open spec fn found_playlist_line(n: nat, playlist: SimplifiedPlaylist) -> Seq<char> {
    "  "@ + decimal(n) + ". \""@ + playlist.name@ + "\" by "@ + owner_text(playlist.owner) + " ("@
        + decimal(playlist.tracks.total as nat) + " tracks) - "@ + or_empty(
        playlist.external_urls.spotify,
    )
}

/// The lines of the tracks section of a search answer.
pub open spec fn track_section(page: Option<Paginated<FullTrack>>) -> Seq<Seq<char>> {
    match page {
        None => Seq::empty(),
        Some(p) => seq!["Tracks ("@ + decimal(p.total as nat) + " total):"@] + numbered_tracks(
            "  "@,
            p.items@,
        ),
    }
}

/// The lines of the artists section of a search answer.
pub open spec fn artist_section(page: Option<Paginated<FullArtist>>) -> Seq<Seq<char>> {
    match page {
        None => Seq::empty(),
        Some(p) => seq!["\nArtists ("@ + decimal(p.total as nat) + " total):"@] + Seq::new(
            p.items@.len(),
            |i: int| artist_line((i + 1) as nat, p.items@[i]),
        ),
    }
}

/// The lines of the albums section of a search answer.
pub open spec fn album_section(page: Option<Paginated<SimplifiedAlbum>>) -> Seq<Seq<char>> {
    match page {
        None => Seq::empty(),
        Some(p) => seq!["\nAlbums ("@ + decimal(p.total as nat) + " total):"@] + Seq::new(
            p.items@.len(),
            |i: int| album_line((i + 1) as nat, p.items@[i]),
        ),
    }
}

/// The lines of the playlists section of a search answer.
pub open spec fn playlist_section(page: Option<Paginated<SimplifiedPlaylist>>) -> Seq<Seq<char>> {
    match page {
        None => Seq::empty(),
        Some(p) => seq!["\nPlaylists ("@ + decimal(p.total as nat) + " total):"@] + Seq::new(
            p.items@.len(),
            |i: int| found_playlist_line((i + 1) as nat, p.items@[i]),
        ),
    }
}

/// All the lines of a search answer, section by section.
pub open spec fn search_lines(result: SearchResult) -> Seq<Seq<char>> {
    track_section(result.tracks) + artist_section(result.artists) + album_section(result.albums)
        + playlist_section(result.playlists)
}

/// The answer of `search`.
pub open spec fn search_report(result: SearchResult) -> Seq<char> {
    if search_lines(result).len() == 0 {
        "No results found."@
    } else {
        joined(search_lines(result), "\n"@)
    }
}

/// One of the user's playlists, numbered `n`.
pub open spec fn own_playlist_line(n: nat, playlist: SimplifiedPlaylist) -> Seq<char> {
    decimal(n) + ". \""@ + playlist.name@ + "\" ("@ + visibility_text(playlist.public) + ", "@
        + decimal(playlist.tracks.total as nat) + " tracks) - ID: "@ + playlist.id@
}

/// The answer of `list_playlists`.
pub open spec fn playlists_report(playlists: UserPlaylists) -> Seq<char> {
    let items = playlists.items@;
    if items.len() == 0 {
        "No playlists found."@
    } else {
        joined(
            seq!["Your playlists ("@ + decimal(playlists.total as nat) + " total):"@] + Seq::new(
                items.len(),
                |i: int| own_playlist_line((i + 1) as nat, items[i]),
            ),
            "\n"@,
        )
    }
}

/// The lines for the first `k` entries of a playlist: each entry whose track
/// is available, numbered by its position; unavailable ones are skipped but
/// keep their number.
pub open spec fn available_tracks(items: Seq<PlaylistTrack>, k: nat) -> Seq<Seq<char>>
    decreases k,
{
    if k == 0 {
        Seq::empty()
    } else {
        available_tracks(items, (k - 1) as nat) + match items[k - 1].track {
            Some(track) => seq![numbered_track("  "@, k, track)],
            None => Seq::empty(),
        }
    }
}

/// The lines that describe a playlist.
pub open spec fn playlist_lines(playlist: FullPlaylist) -> Seq<Seq<char>> {
    let items = playlist.tracks.items@;
    seq!["Playlist: \""@ + playlist.name@ + "\""@] + match playlist.description {
        Some(d) => if d@.len() > 0 {
            seq!["Description: "@ + d@]
        } else {
            Seq::empty()
        },
        None => Seq::empty(),
    } + seq![
        "Owner: "@ + owner_text(playlist.owner),
        "Visibility: "@ + visibility_text(playlist.public),
        "Total tracks: "@ + decimal(playlist.tracks.total as nat),
    ] + if items.len() == 0 {
        Seq::empty()
    } else {
        seq!["\nTracks:"@] + available_tracks(items, items.len())
    }
}

/// The answer of `get_playlist`.
pub open spec fn playlist_report(playlist: FullPlaylist) -> Seq<char> {
    joined(playlist_lines(playlist), "\n"@)
}

/// One of the Liked Songs, numbered `n`.
pub open spec fn saved_line(n: nat, item: SavedTrack) -> Seq<char> {
    decimal(n) + ". "@ + track_text(item.track)
}

/// The answer of `get_saved_tracks`: the page's tracks numbered from the
/// page's offset.
pub open spec fn saved_tracks_report(saved: SavedTracks) -> Seq<char> {
    let items = saved.items@;
    if items.len() == 0 {
        "No saved tracks found."@
    } else {
        joined(
            seq![
                "Liked Songs ("@ + decimal(saved.total as nat) + " total, showing "@ + decimal(
                    (saved.offset + 1) as nat,
                ) + "-"@ + decimal((saved.offset + items.len()) as nat) + "):"@,
            ] + Seq::new(
                items.len(),
                |i: int| saved_line((saved.offset + i + 1) as nat, items[i]),
            ),
            "\n"@,
        )
    }
}

fn push_numbered_tracks(lines: &mut Vec<String>, indent: &str, tracks: &Vec<FullTrack>)
    ensures
        views(final(lines)@) == views(old(lines)@) + numbered_tracks(indent@, tracks@),
{
    let ghost head = views(lines@);
    let ghost all = numbered_tracks(indent@, tracks@);
    let mut i: usize = 0;
    while i < tracks.len()
        invariant
            i <= tracks.len(),
            all == numbered_tracks(indent@, tracks@),
            views(lines@) == head + all.take(i as int),
        decreases tracks.len() - i,
    {
        let mut line = String::from_str(indent);
        let n = decimal_string(i as u64 + 1);
        line.append(n.as_str());
        line.append(". ");
        let described = format_track(&tracks[i]);
        line.append(described.as_str());
        push_line(lines, line);
        assert(all.take(i + 1) =~= all.take(i as int).push(all[i as int]));
        assert(views(lines@) =~= head + all.take(i + 1));
        i = i + 1;
    }
    assert(all.take(tracks.len() as int) =~= all);
}

/// The answer of `get_recently_played`.
pub fn recently_played_text(recent: &RecentlyPlayed) -> (res: String)
    ensures
        res@ == recently_played_report(*recent),
{
    let items = &recent.items;
    if items.len() == 0 {
        return String::from_str("No recently played tracks.");
    }
    let ghost all = Seq::new(
        items@.len(),
        |i: int| history_line((i + 1) as nat, items@[i]),
    );
    let mut lines: Vec<String> = Vec::new();
    let mut header = String::from_str("Recently played (");
    let n = decimal_string(items.len() as u64);
    header.append(n.as_str());
    header.append(" tracks):");
    let ghost header_text = header@;
    assert(views(lines@) =~= Seq::<Seq<char>>::empty());
    push_line(&mut lines, header);
    assert(views(lines@) =~= seq![header_text]);
    let ghost head = views(lines@);
    let mut i: usize = 0;
    while i < items.len()
        invariant
            i <= items.len(),
            all == Seq::new(items@.len(), |i: int| history_line((i + 1) as nat, items@[i])),
            views(lines@) == head + all.take(i as int),
        decreases items.len() - i,
    {
        let n = decimal_string(i as u64 + 1);
        let mut line = n;
        line.append(". ");
        let described = format_track(&items[i].track);
        line.append(described.as_str());
        line.append(" (played at ");
        line.append(items[i].played_at.as_str());
        line.append(")");
        push_line(&mut lines, line);
        assert(all.take(i + 1) =~= all.take(i as int).push(all[i as int]));
        assert(views(lines@) =~= head + all.take(i + 1));
        i = i + 1;
    }
    assert(all.take(items.len() as int) =~= all);
    assert(views(lines@) =~= head + all);
    join(&lines, "\n")
}

/// The answer of `get_queue`.
pub fn queue_text(queue: &Queue) -> (res: String)
    ensures
        res@ == queue_report(*queue),
{
    let mut lines: Vec<String> = Vec::new();
    match &queue.currently_playing {
        Some(track) => {
            let mut line = String::from_str("Now playing: ");
            let described = format_track(track);
            line.append(described.as_str());
            push_line(&mut lines, line);
        },
        None => {},
    }
    let ghost head = views(lines@);
    if queue.queue.len() == 0 {
        push_line(&mut lines, String::from_str("Queue is empty."));
    } else {
        let mut line = String::from_str("\nUp next (");
        let n = decimal_string(queue.queue.len() as u64);
        line.append(n.as_str());
        line.append(" tracks):");
        push_line(&mut lines, line);
        push_numbered_tracks(&mut lines, "", &queue.queue);
    }
    assert(views(lines@) =~= queue_lines(*queue));
    join(&lines, "\n")
}

fn optional_text(s: &Option<String>) -> (res: &str)
    ensures
        res@ == or_empty(*s),
{
    match s {
        Some(v) => v.as_str(),
        None => {
            proof {
                reveal_strlit("");
            }
            ""
        },
    }
}

fn owner_name(owner: &PlaylistOwner) -> (res: &str)
    ensures
        res@ == owner_text(*owner),
{
    match &owner.display_name {
        Some(name) => name.as_str(),
        None => owner.id.as_str(),
    }
}

fn visibility(public: Option<bool>) -> (res: &'static str)
    ensures
        res@ == visibility_text(public),
{
    match public {
        Some(true) => "public",
        _ => "private",
    }
}

fn push_track_section(lines: &mut Vec<String>, page: &Option<Paginated<FullTrack>>)
    ensures
        views(final(lines)@) == views(old(lines)@) + track_section(*page),
{
    match page {
        None => {
            assert(views(lines@) =~= views(lines@) + Seq::<Seq<char>>::empty());
        },
        Some(p) => {
            let ghost before = views(lines@);
            let mut header = String::from_str("Tracks (");
            let n = decimal_string(p.total as u64);
            header.append(n.as_str());
            header.append(" total):");
            push_line(lines, header);
            push_numbered_tracks(lines, "  ", &p.items);
            assert(views(lines@) =~= before + track_section(*page));
        },
    }
}

fn push_artist_section(lines: &mut Vec<String>, page: &Option<Paginated<FullArtist>>)
    ensures
        views(final(lines)@) == views(old(lines)@) + artist_section(*page),
{
    match page {
        None => {
            assert(views(lines@) =~= views(lines@) + Seq::<Seq<char>>::empty());
        },
        Some(p) => {
            let ghost before = views(lines@);
            let items = &p.items;
            let ghost all = Seq::new(
                items@.len(),
                |i: int| artist_line((i + 1) as nat, items@[i]),
            );
            let mut header = String::from_str("\nArtists (");
            let n = decimal_string(p.total as u64);
            header.append(n.as_str());
            header.append(" total):");
            push_line(lines, header);
            let ghost head = views(lines@);
            let mut i: usize = 0;
            while i < items.len()
                invariant
                    i <= items.len(),
                    all == Seq::new(
                        items@.len(),
                        |i: int| artist_line((i + 1) as nat, items@[i]),
                    ),
                    views(lines@) == head + all.take(i as int),
                decreases items.len() - i,
            {
                let artist = &items[i];
                let mut line = String::from_str("  ");
                let n = decimal_string(i as u64 + 1);
                line.append(n.as_str());
                line.append(". ");
                line.append(artist.name.as_str());
                line.append(" (Genres: ");
                match &artist.genres {
                    Some(genres) => {
                        let g = join(genres, ", ");
                        line.append(g.as_str());
                    },
                    None => {
                        assert(line@ + genres_text(*artist) =~= line@);
                    },
                }
                line.append(") - ");
                line.append(optional_text(&artist.external_urls.spotify));
                push_line(lines, line);
                assert(all.take(i + 1) =~= all.take(i as int).push(all[i as int]));
                assert(views(lines@) =~= head + all.take(i + 1));
                i = i + 1;
            }
            assert(all.take(items.len() as int) =~= all);
            assert(views(lines@) =~= before + artist_section(*page));
        },
    }
}

fn push_album_section(lines: &mut Vec<String>, page: &Option<Paginated<SimplifiedAlbum>>)
    ensures
        views(final(lines)@) == views(old(lines)@) + album_section(*page),
{
    match page {
        None => {
            assert(views(lines@) =~= views(lines@) + Seq::<Seq<char>>::empty());
        },
        Some(p) => {
            let ghost before = views(lines@);
            let items = &p.items;
            let ghost all = Seq::new(
                items@.len(),
                |i: int| album_line((i + 1) as nat, items@[i]),
            );
            let mut header = String::from_str("\nAlbums (");
            let n = decimal_string(p.total as u64);
            header.append(n.as_str());
            header.append(" total):");
            push_line(lines, header);
            let ghost head = views(lines@);
            let mut i: usize = 0;
            while i < items.len()
                invariant
                    i <= items.len(),
                    all == Seq::new(
                        items@.len(),
                        |i: int| album_line((i + 1) as nat, items@[i]),
                    ),
                    views(lines@) == head + all.take(i as int),
                decreases items.len() - i,
            {
                let album = &items[i];
                let mut line = String::from_str("  ");
                let n = decimal_string(i as u64 + 1);
                line.append(n.as_str());
                line.append(". \"");
                line.append(album.name.as_str());
                line.append("\" by ");
                let artists = format_artists(album.artists.as_slice());
                line.append(artists.as_str());
                line.append(" (");
                line.append(optional_text(&album.release_date));
                line.append(") - ");
                line.append(optional_text(&album.external_urls.spotify));
                push_line(lines, line);
                assert(all.take(i + 1) =~= all.take(i as int).push(all[i as int]));
                assert(views(lines@) =~= head + all.take(i + 1));
                i = i + 1;
            }
            assert(all.take(items.len() as int) =~= all);
            assert(views(lines@) =~= before + album_section(*page));
        },
    }
}

fn push_playlist_section(lines: &mut Vec<String>, page: &Option<Paginated<SimplifiedPlaylist>>)
    ensures
        views(final(lines)@) == views(old(lines)@) + playlist_section(*page),
{
    match page {
        None => {
            assert(views(lines@) =~= views(lines@) + Seq::<Seq<char>>::empty());
        },
        Some(p) => {
            let ghost before = views(lines@);
            let items = &p.items;
            let ghost all = Seq::new(
                items@.len(),
                |i: int| found_playlist_line((i + 1) as nat, items@[i]),
            );
            let mut header = String::from_str("\nPlaylists (");
            let n = decimal_string(p.total as u64);
            header.append(n.as_str());
            header.append(" total):");
            push_line(lines, header);
            let ghost head = views(lines@);
            let mut i: usize = 0;
            while i < items.len()
                invariant
                    i <= items.len(),
                    all == Seq::new(
                        items@.len(),
                        |i: int| found_playlist_line((i + 1) as nat, items@[i]),
                    ),
                    views(lines@) == head + all.take(i as int),
                decreases items.len() - i,
            {
                let playlist = &items[i];
                let mut line = String::from_str("  ");
                let n = decimal_string(i as u64 + 1);
                line.append(n.as_str());
                line.append(". \"");
                line.append(playlist.name.as_str());
                line.append("\" by ");
                line.append(owner_name(&playlist.owner));
                line.append(" (");
                let count = decimal_string(playlist.tracks.total as u64);
                line.append(count.as_str());
                line.append(" tracks) - ");
                line.append(optional_text(&playlist.external_urls.spotify));
                push_line(lines, line);
                assert(all.take(i + 1) =~= all.take(i as int).push(all[i as int]));
                assert(views(lines@) =~= head + all.take(i + 1));
                i = i + 1;
            }
            assert(all.take(items.len() as int) =~= all);
            assert(views(lines@) =~= before + playlist_section(*page));
        },
    }
}

/// The answer of `search`.
pub fn search_text(result: &SearchResult) -> (res: String)
    ensures
        res@ == search_report(*result),
{
    let mut lines: Vec<String> = Vec::new();
    push_track_section(&mut lines, &result.tracks);
    push_artist_section(&mut lines, &result.artists);
    push_album_section(&mut lines, &result.albums);
    push_playlist_section(&mut lines, &result.playlists);
    assert(views(lines@) =~= search_lines(*result));
    if lines.len() == 0 {
        String::from_str("No results found.")
    } else {
        join(&lines, "\n")
    }
}

/// The answer of `list_playlists`.
pub fn playlists_text(playlists: &UserPlaylists) -> (res: String)
    ensures
        res@ == playlists_report(*playlists),
{
    let items = &playlists.items;
    if items.len() == 0 {
        return String::from_str("No playlists found.");
    }
    let ghost all = Seq::new(
        items@.len(),
        |i: int| own_playlist_line((i + 1) as nat, items@[i]),
    );
    let mut lines: Vec<String> = Vec::new();
    let mut header = String::from_str("Your playlists (");
    let n = decimal_string(playlists.total as u64);
    header.append(n.as_str());
    header.append(" total):");
    let ghost header_text = header@;
    assert(views(lines@) =~= Seq::<Seq<char>>::empty());
    push_line(&mut lines, header);
    assert(views(lines@) =~= seq![header_text]);
    let ghost head = views(lines@);
    let mut i: usize = 0;
    while i < items.len()
        invariant
            i <= items.len(),
            all == Seq::new(items@.len(), |i: int| own_playlist_line((i + 1) as nat, items@[i])),
            views(lines@) == head + all.take(i as int),
        decreases items.len() - i,
    {
        let playlist = &items[i];
        let mut line = decimal_string(i as u64 + 1);
        line.append(". \"");
        line.append(playlist.name.as_str());
        line.append("\" (");
        line.append(visibility(playlist.public));
        line.append(", ");
        let count = decimal_string(playlist.tracks.total as u64);
        line.append(count.as_str());
        line.append(" tracks) - ID: ");
        line.append(playlist.id.as_str());
        push_line(&mut lines, line);
        assert(all.take(i + 1) =~= all.take(i as int).push(all[i as int]));
        assert(views(lines@) =~= head + all.take(i + 1));
        i = i + 1;
    }
    assert(all.take(items.len() as int) =~= all);
    assert(views(lines@) =~= head + all);
    join(&lines, "\n")
}

/// The answer of `get_playlist`.
pub fn playlist_text(playlist: &FullPlaylist) -> (res: String)
    ensures
        res@ == playlist_report(*playlist),
{
    let mut lines: Vec<String> = Vec::new();
    let mut line = String::from_str("Playlist: \"");
    line.append(playlist.name.as_str());
    line.append("\"");
    push_line(&mut lines, line);
    match &playlist.description {
        Some(d) => {
            if !d.as_str().is_empty() {
                let mut line = String::from_str("Description: ");
                line.append(d.as_str());
                push_line(&mut lines, line);
            }
        },
        None => {},
    }
    let mut line = String::from_str("Owner: ");
    line.append(owner_name(&playlist.owner));
    push_line(&mut lines, line);
    let mut line = String::from_str("Visibility: ");
    line.append(visibility(playlist.public));
    push_line(&mut lines, line);
    let mut line = String::from_str("Total tracks: ");
    let n = decimal_string(playlist.tracks.total as u64);
    line.append(n.as_str());
    push_line(&mut lines, line);
    let items = &playlist.tracks.items;
    if items.len() > 0 {
        push_line(&mut lines, String::from_str("\nTracks:"));
        let ghost head = views(lines@);
        let mut i: usize = 0;
        while i < items.len()
            invariant
                i <= items.len(),
                views(lines@) == head + available_tracks(items@, i as nat),
            decreases items.len() - i,
        {
            match &items[i].track {
                Some(track) => {
                    let mut line = String::from_str("  ");
                    let n = decimal_string(i as u64 + 1);
                    line.append(n.as_str());
                    line.append(". ");
                    let described = format_track(track);
                    line.append(described.as_str());
                    push_line(&mut lines, line);
                },
                None => {},
            }
            assert(views(lines@) =~= head + available_tracks(items@, (i + 1) as nat));
            i = i + 1;
        }
    }
    assert(views(lines@) =~= playlist_lines(*playlist));
    join(&lines, "\n")
}

/// The answer of `get_saved_tracks`. The page must be such that its last
/// position, `offset + items`, fits in a `u32`.
pub fn saved_tracks_text(saved: &SavedTracks) -> (res: String)
    requires
        saved.offset + saved.items@.len() <= u32::MAX,
    ensures
        res@ == saved_tracks_report(*saved),
{
    let items = &saved.items;
    if items.len() == 0 {
        return String::from_str("No saved tracks found.");
    }
    let ghost all = Seq::new(
        items@.len(),
        |i: int| saved_line((saved.offset + i + 1) as nat, items@[i]),
    );
    let mut lines: Vec<String> = Vec::new();
    let mut header = String::from_str("Liked Songs (");
    let total = decimal_string(saved.total as u64);
    header.append(total.as_str());
    header.append(" total, showing ");
    let first = decimal_string(saved.offset as u64 + 1);
    header.append(first.as_str());
    header.append("-");
    let last = decimal_string(saved.offset as u64 + items.len() as u64);
    header.append(last.as_str());
    header.append("):");
    let ghost header_text = header@;
    assert(views(lines@) =~= Seq::<Seq<char>>::empty());
    push_line(&mut lines, header);
    assert(views(lines@) =~= seq![header_text]);
    let ghost head = views(lines@);
    let mut i: usize = 0;
    while i < items.len()
        invariant
            i <= items.len(),
            saved.offset + items@.len() <= u32::MAX,
            all == Seq::new(
                items@.len(),
                |i: int| saved_line((saved.offset + i + 1) as nat, items@[i]),
            ),
            views(lines@) == head + all.take(i as int),
        decreases items.len() - i,
    {
        let mut line = decimal_string(saved.offset as u64 + i as u64 + 1);
        line.append(". ");
        let described = format_track(&items[i].track);
        line.append(described.as_str());
        push_line(&mut lines, line);
        assert(all.take(i + 1) =~= all.take(i as int).push(all[i as int]));
        assert(views(lines@) =~= head + all.take(i + 1));
        i = i + 1;
    }
    assert(all.take(items.len() as int) =~= all);
    assert(views(lines@) =~= head + all);
    join(&lines, "\n")
}

/// A duration is shown as whole minutes and the seconds left over, which
/// are less than 60 and shown with two digits; together they give back the
/// whole seconds of the duration.
pub proof fn lemma_duration_fields(ms: nat)
    ensures
        exists|minutes: nat, seconds: nat|
            seconds < 60 && minutes * 60 + seconds == ms / 1000 && duration_text(ms) == decimal(
                minutes,
            ) + ":"@ + padded2(seconds) && padded2(seconds).len() == 2,
{
    let minutes: nat = ms / 1000 / 60;
    let seconds: nat = ms / 1000 % 60;
    reveal_with_fuel(decimal, 2);
    assert(seconds < 60);
    assert(minutes * 60 + seconds == ms / 1000);
    assert(padded2(seconds).len() == 2);
    assert(duration_text(ms) == decimal(minutes) + ":"@ + padded2(seconds));
}

} // verus!
