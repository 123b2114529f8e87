//! Laws of the texts the tools answer with and of the requests they send,
//! stated over the inputs and the results.

use vstd::prelude::*;

use crate::callback::{first_value, first_value_from, is_white_space, scan_words, words};
use crate::error::{error_code_of, AppError};
use crate::json::{text_array, Json};
use crate::models::{
    CurrentlyPlaying, FullArtist, FullPlaylist, FullTrack, Paginated, PlaybackState,
    PlaylistTrack, Queue, RecentlyPlayed, SavedTracks, SearchResult, SimplifiedAlbum,
    SimplifiedPlaylist, UserPlaylists,
};
use crate::render::{
    album_section, artist_section, artists_text, available_tracks, currently_playing_report,
    duration_text, genres_text, history_line, numbered_track, numbered_tracks, or_empty,
    owner_text, own_playlist_line, playback_lines, playback_report, playlist_lines,
    playlist_report, playlist_section, playlists_report, queue_lines, queue_report,
    recently_played_report, saved_line, saved_tracks_report, search_lines, search_report,
    track_progress_lines, track_section, track_text, visibility_text,
};
use crate::requests::{play_body, with_device, ResponseKind};
use crate::response::{outcome_of, StatusOutcome};
use crate::text::{bool_text, decimal, digit_char, joined, padded2, views};
use crate::token::{expired_at, lifetime, Timestamp, TokenData};

verus! {

/// The number that a string of decimal digits stands for.
pub open spec fn digits_value(s: Seq<char>) -> int
    decreases s.len(),
{
    if s.len() == 0 {
        0
    } else {
        digits_value(s.drop_last()) * 10 + (s.last() as int - 48)
    }
}

/// Whether every character of a string is a decimal digit.
pub open spec fn all_digits(s: Seq<char>) -> bool {
    forall|i: int| 0 <= i < s.len() ==> 48 <= #[trigger] (s[i] as int) <= 57
}

/// A number's decimal text is made of digits, starts with a digit other
/// than `0` unless the number is 0, and reads back as the number.
pub proof fn lemma_decimal_reads_back(n: nat)
    ensures
        decimal(n).len() >= 1,
        all_digits(decimal(n)),
        digits_value(decimal(n)) == n,
        n > 0 ==> decimal(n)[0] != '0',
    decreases n,
{
    if n < 10 {
        let c = digit_char(n);
        assert(decimal(n) == seq![c]);
        assert(seq![c].drop_last() =~= Seq::<char>::empty());
        assert(c as int == 48 + n);
        assert(seq![c].last() == c);
        assert(digits_value(Seq::<char>::empty()) == 0);
        assert(digits_value(seq![c]) == digits_value(seq![c].drop_last()) * 10 + (c as int - 48));
    } else {
        lemma_decimal_reads_back(n / 10);
        let s = decimal(n);
        let c = digit_char(n % 10);
        assert(s == decimal(n / 10) + seq![c]);
        assert(s.drop_last() =~= decimal(n / 10));
        assert(s.last() == c);
        assert(c as int == 48 + n % 10);
        assert(digits_value(s) == digits_value(s.drop_last()) * 10 + (c as int - 48));
        assert forall|i: int| 0 <= i < s.len() implies 48 <= #[trigger] (s[i] as int) <= 57 by {
            if i < s.len() - 1 {
                assert(s[i] == decimal(n / 10)[i]);
            }
        }
        assert(s[0] == decimal(n / 10)[0]);
    }
}

/// Two numbers have the same decimal text only if they are equal.
pub proof fn lemma_decimal_injective(a: nat, b: nat)
    requires
        decimal(a) == decimal(b),
    ensures
        a == b,
{
    lemma_decimal_reads_back(a);
    lemma_decimal_reads_back(b);
}

/// A number below 100 in two-digit form: two digits that read back as the
/// number.
pub proof fn lemma_padded2_reads_back(n: nat)
    requires
        n < 100,
    ensures
        padded2(n).len() == 2,
        all_digits(padded2(n)),
        digits_value(padded2(n)) == n,
{
    reveal_with_fuel(decimal, 2);
    lemma_decimal_reads_back(n);
    if n < 10 {
        let c = digit_char(n);
        let p = padded2(n);
        assert(p =~= seq!['0', c]);
        assert(p.drop_last() =~= seq!['0']);
        assert(seq!['0'].drop_last() =~= Seq::<char>::empty());
        assert('0' as int == 48);
        assert(seq!['0'].last() == '0');
        assert(digits_value(Seq::<char>::empty()) == 0);
        assert(digits_value(seq!['0']) == digits_value(seq!['0'].drop_last()) * 10 + ('0' as int - 48));
        assert(digits_value(seq!['0']) == 0);
        assert(c as int == 48 + n);
        assert(digits_value(p) == digits_value(p.drop_last()) * 10 + (p.last() as int - 48));
    } else {
        assert(decimal(n / 10) == seq![digit_char(n / 10)]);
        assert(seq![digit_char(n / 10)].drop_last() =~= Seq::<char>::empty());
    }
}

/// `true` and `false` are shown as those words.
pub proof fn lemma_bool_words(b: bool)
    ensures
        bool_text(true) == seq!['t', 'r', 'u', 'e'],
        bool_text(false) == seq!['f', 'a', 'l', 's', 'e'],
        bool_text(b) == if b {
            seq!['t', 'r', 'u', 'e']
        } else {
            seq!['f', 'a', 'l', 's', 'e']
        },
{
}

/// A duration shows the whole minutes, a colon, and the seconds left over
/// in two digits; the minutes and seconds read back as the duration's whole
/// seconds.
pub proof fn lemma_duration_reads_back(ms: nat)
    ensures
        ({
            let t = duration_text(ms);
            let m = decimal(ms / 60000);
            &&& t.len() == m.len() + 3
            &&& t.subrange(0, m.len() as int) == m
            &&& t[m.len() as int] == ':'
            &&& digits_value(t.subrange(0, m.len() as int)) * 60 + digits_value(
                t.subrange((m.len() + 1) as int, t.len() as int),
            ) == ms / 1000
            &&& digits_value(t.subrange((m.len() + 1) as int, t.len() as int)) < 60
        }),
{
    let seconds: nat = ms / 1000 % 60;
    let minutes: nat = ms / 1000 / 60;
    assert(minutes == ms / 60000);
    lemma_decimal_reads_back(minutes);
    lemma_padded2_reads_back(seconds);
    reveal_strlit(":");
    let t = duration_text(ms);
    let m = decimal(minutes);
    assert(t == m + seq![':'] + padded2(seconds));
    assert(t.subrange(0, m.len() as int) =~= m);
    assert(t.subrange((m.len() + 1) as int, t.len() as int) =~= padded2(seconds));
}

/// The first four lines of a playback report show the device's name and
/// type, whether it is playing, the shuffle state and the repeat mode, each
/// from its own field; the volume follows when it is known; then the track
/// and the progress; the lines are joined with line breaks.
pub proof fn lemma_playback_lines(s: PlaybackState)
    ensures
        playback_report(None) == "No active playback session."@,
        playback_report(Some(s)) == joined(playback_lines(s), "\n"@),
        playback_lines(s).len() == 4 + (if s.device.volume_percent is Some {
            1int
        } else {
            0int
        }) + track_progress_lines(s.item, s.progress_ms).len(),
        playback_lines(s)[0] == "Device: "@ + s.device.name@ + " ("@ + s.device.device_type@
            + ")"@,
        playback_lines(s)[1] == "Playing: "@ + if s.is_playing {
            "true"@
        } else {
            "false"@
        },
        playback_lines(s)[2] == "Shuffle: "@ + if s.shuffle_state {
            "true"@
        } else {
            "false"@
        },
        playback_lines(s)[3] == "Repeat: "@ + s.repeat_state@,
        forall|v: u32|
            s.device.volume_percent == Some(v) ==> playback_lines(s)[4] == "Volume: "@ + decimal(
                v as nat,
            ) + "%"@,
{
    reveal_strlit("true");
    reveal_strlit("false");
}

/// The shuffle line depends on the shuffle state alone and shows it: two
/// states with the same shuffle state have the same shuffle line, whatever
/// else differs, and two with different ones have different lines. The
/// same holds of the playing line and `is_playing`, and of the repeat line
/// and the repeat mode.
pub proof fn lemma_playback_lines_follow_their_fields(s: PlaybackState, t: PlaybackState)
    ensures
        (playback_lines(s)[2] == playback_lines(t)[2]) <==> (s.shuffle_state == t.shuffle_state),
        (playback_lines(s)[1] == playback_lines(t)[1]) <==> (s.is_playing == t.is_playing),
        (playback_lines(s)[3] == playback_lines(t)[3]) <==> (s.repeat_state@ == t.repeat_state@),
{
    lemma_playback_lines(s);
    lemma_playback_lines(t);
    reveal_strlit("Shuffle: ");
    reveal_strlit("Playing: ");
    reveal_strlit("Repeat: ");
    reveal_strlit("true");
    reveal_strlit("false");
    if playback_lines(s)[2] == playback_lines(t)[2] {
        assert(playback_lines(s)[2].len() == playback_lines(t)[2].len());
    }
    if playback_lines(s)[1] == playback_lines(t)[1] {
        assert(playback_lines(s)[1].len() == playback_lines(t)[1].len());
    }
    if playback_lines(s)[3] == playback_lines(t)[3] {
        assert(s.repeat_state@ =~= playback_lines(s)[3].subrange(8, playback_lines(s)[3].len() as int));
        assert(t.repeat_state@ =~= playback_lines(t)[3].subrange(8, playback_lines(t)[3].len() as int));
    }
}

/// With a track, the track lines show it, then its progress when known,
/// against the track's own duration; without one there are none.
pub proof fn lemma_track_progress_lines(item: Option<FullTrack>, progress: Option<u64>)
    ensures
        item is None ==> track_progress_lines(item, progress).len() == 0,
        forall|t: FullTrack|
            item == Some(t) ==> {
                &&& track_progress_lines(item, progress).len() == if progress is Some {
                    2int
                } else {
                    1int
                }
                &&& track_progress_lines(item, progress)[0] == "Track: "@ + track_text(t)
                &&& forall|p: u64|
                    progress == Some(p) ==> track_progress_lines(item, progress)[1]
                        == "Progress: "@ + duration_text(p as nat) + " / "@ + duration_text(
                        t.duration_ms as nat,
                    )
            },
{
}

/// The currently-playing report: the playing line, then the track lines.
pub proof fn lemma_currently_playing(c: CurrentlyPlaying)
    ensures
        currently_playing_report(None) == "Nothing is currently playing."@,
        currently_playing_report(Some(c)) == joined(
            seq!["Playing: "@ + if c.is_playing {
                "true"@
            } else {
                "false"@
            }] + track_progress_lines(c.item, c.progress_ms),
            "\n"@,
        ),
{
    reveal_strlit("true");
    reveal_strlit("false");
    assert(bool_text(c.is_playing) == if c.is_playing {
        "true"@
    } else {
        "false"@
    });
}

/// Numbered tracks: the i-th line shows the track at position i, numbered
/// i + 1.
pub proof fn lemma_numbered_tracks(indent: Seq<char>, tracks: Seq<FullTrack>)
    ensures
        numbered_tracks(indent, tracks).len() == tracks.len(),
        forall|i: int|
            0 <= i < tracks.len() ==> #[trigger] numbered_tracks(indent, tracks)[i] == indent
                + decimal((i + 1) as nat) + ". "@ + track_text(tracks[i]),
{
}


/// How many description lines a playlist's details have: one when it has a
/// description that is not empty, none otherwise.
pub open spec fn description_count(p: FullPlaylist) -> int {
    match p.description {
        Some(d) => if d@.len() > 0 {
            1int
        } else {
            0int
        },
        None => 0int,
    }
}

/// A playlist's details: its name, its description when it has one, its
/// owner, its visibility, and its total number of tracks, which is the
/// total that the tracks page gives, not the number of entries on the page;
/// then the entries when there are any.
pub proof fn lemma_playlist_lines(p: FullPlaylist)
    ensures
        playlist_report(p) == joined(playlist_lines(p), "\n"@),
        ({
            let d = description_count(p);
            let lines = playlist_lines(p);
            &&& lines.len() >= 4 + d
            &&& lines[0] == "Playlist: \""@ + p.name@ + "\""@
            &&& d == 1 ==> lines[1] == "Description: "@ + p.description.unwrap()@
            &&& lines[1 + d] == "Owner: "@ + match p.owner.display_name {
                Some(n) => n@,
                None => p.owner.id@,
            }
            &&& lines[2 + d] == "Visibility: "@ + if p.public == Some(true) {
                "public"@
            } else {
                "private"@
            }
            &&& lines[3 + d] == "Total tracks: "@ + decimal(p.tracks.total as nat)
            &&& p.tracks.items@.len() == 0 ==> lines.len() == 4 + d
            &&& p.tracks.items@.len() > 0 ==> lines[4 + d] == "\nTracks:"@
            &&& p.tracks.items@.len() > 0 ==> lines.subrange(5 + d, lines.len() as int)
                == available_tracks(p.tracks.items@, p.tracks.items@.len())
        }),
{
    let items = p.tracks.items@;
    let head = seq!["Playlist: \""@ + p.name@ + "\""@];
    let desc: Seq<Seq<char>> = match p.description {
        Some(d) => if d@.len() > 0 {
            seq!["Description: "@ + d@]
        } else {
            Seq::empty()
        },
        None => Seq::empty(),
    };
    let mid = seq![
        "Owner: "@ + owner_text(p.owner),
        "Visibility: "@ + visibility_text(p.public),
        "Total tracks: "@ + decimal(p.tracks.total as nat),
    ];
    let tail: Seq<Seq<char>> = if items.len() == 0 {
        Seq::empty()
    } else {
        seq!["\nTracks:"@] + available_tracks(items, items.len())
    };
    assert(playlist_lines(p) == head + desc + mid + tail);
    assert(desc.len() == description_count(p));
    if items.len() > 0 {
        let lines = playlist_lines(p);
        let d = description_count(p);
        assert(lines.subrange(5 + d, lines.len() as int) =~= available_tracks(items, items.len()));
    }
}

/// Two playlists that differ only in the entries on their tracks page have
/// the same total line.
pub proof fn lemma_playlist_total_ignores_entries(p: FullPlaylist, q: FullPlaylist)
    requires
        p.name@ == q.name@,
        p.description == q.description,
        p.owner == q.owner,
        p.public == q.public,
        p.tracks.total == q.tracks.total,
    ensures
        playlist_lines(p)[3 + description_count(p)] == playlist_lines(q)[3 + description_count(q)],
        playlist_lines(p)[3 + description_count(p)] == "Total tracks: "@ + decimal(
            p.tracks.total as nat,
        ),
{
    lemma_playlist_lines(p);
    lemma_playlist_lines(q);
}

/// The queue: the track playing now when there is one, then either the line
/// `Queue is empty.` when no track is queued, or a heading with the number
/// of queued tracks followed by the tracks numbered from 1. Whether a track
/// is playing changes only the first line.
pub proof fn lemma_queue_lines(q: Queue)
    ensures
        queue_report(q) == joined(queue_lines(q), "\n"@),
        ({
            let k: int = if q.currently_playing is Some {
                1int
            } else {
                0int
            };
            let next = q.queue@;
            let lines = queue_lines(q);
            &&& forall|t: FullTrack|
                q.currently_playing == Some(t) ==> lines[0] == "Now playing: "@ + track_text(t)
            &&& next.len() == 0 ==> lines.len() == k + 1 && lines[k] == "Queue is empty."@
            &&& next.len() > 0 ==> {
                &&& lines.len() == k + 1 + next.len()
                &&& lines[k] == "\nUp next ("@ + decimal(next.len()) + " tracks):"@
                &&& forall|i: int|
                    0 <= i < next.len() ==> #[trigger] lines[k + 1 + i] == decimal((i + 1) as nat)
                        + ". "@ + track_text(next[i])
            }
            &&& (lines.last() == "Queue is empty."@) <==> next.len() == 0
        }),
{
    let next = q.queue@;
    let lines = queue_lines(q);
    let now: Seq<Seq<char>> = match q.currently_playing {
        Some(track) => seq!["Now playing: "@ + track_text(track)],
        None => Seq::empty(),
    };
    reveal_strlit("");
    assert(""@ =~= Seq::<char>::empty());
    if next.len() == 0 {
        assert(lines == now + seq!["Queue is empty."@]);
    } else {
        let up = seq!["\nUp next ("@ + decimal(next.len()) + " tracks):"@] + numbered_tracks(
            ""@,
            next,
        );
        assert(lines == now + up);
        assert forall|i: int| 0 <= i < next.len() implies #[trigger] lines[now.len() + 1 + i]
            == decimal((i + 1) as nat) + ". "@ + track_text(next[i]) by {
            assert(lines[now.len() + 1 + i] == numbered_tracks(""@, next)[i]);
            assert(""@ + decimal((i + 1) as nat) =~= decimal((i + 1) as nat));
        }
        let last = lines.last();
        let n: nat = next.len();
        assert(last == lines[now.len() + 1 + (n - 1)]);
        lemma_decimal_reads_back(n);
        reveal_strlit("Queue is empty.");
        assert(last[0] == decimal(n)[0]);
        assert(48 <= (decimal(n)[0] as int) <= 57);
        assert("Queue is empty."@[0] == 'Q');
    }
}

/// Two queues with the same upcoming tracks have the same lines after the
/// one about the track playing now, whether or not a track is playing.
pub proof fn lemma_queue_ignores_playing(q: Queue, r: Queue)
    requires
        q.queue@ == r.queue@,
    ensures
        ({
            let kq: int = if q.currently_playing is Some {
                1int
            } else {
                0int
            };
            let kr: int = if r.currently_playing is Some {
                1int
            } else {
                0int
            };
            queue_lines(q).subrange(kq, queue_lines(q).len() as int) == queue_lines(r).subrange(
                kr,
                queue_lines(r).len() as int,
            )
        }),
{
    let kq: int = if q.currently_playing is Some {
        1int
    } else {
        0int
    };
    let kr: int = if r.currently_playing is Some {
        1int
    } else {
        0int
    };
    lemma_queue_lines(q);
    lemma_queue_lines(r);
    assert(queue_lines(q).subrange(kq, queue_lines(q).len() as int) =~= queue_lines(r).subrange(
        kr,
        queue_lines(r).len() as int,
    ));
}

/// The tracks section of a search answer: none without a page; with one, a
/// heading with the page's total (not the number of tracks on the page),
/// then the page's tracks numbered from 1.
pub proof fn lemma_track_section(page: Option<Paginated<FullTrack>>)
    ensures
        page is None ==> track_section(page).len() == 0,
        forall|p: Paginated<FullTrack>|
            page == Some(p) ==> {
                let lines = track_section(page);
                &&& lines.len() == 1 + p.items@.len()
                &&& lines[0] == "Tracks ("@ + decimal(p.total as nat) + " total):"@
                &&& forall|i: int|
                    0 <= i < p.items@.len() ==> #[trigger] lines[1 + i] == "  "@ + decimal(
                        (i + 1) as nat,
                    ) + ". "@ + track_text(p.items@[i])
            },
{
}

/// The artists section of a search answer: none without a page; with one, a
/// heading with the page's total (not the number of artists on the page),
/// then the page's artists numbered from 1, each with its genres and link.
pub proof fn lemma_artist_section(page: Option<Paginated<FullArtist>>)
    ensures
        page is None ==> artist_section(page).len() == 0,
        forall|p: Paginated<FullArtist>|
            page == Some(p) ==> {
                let lines = artist_section(page);
                &&& lines.len() == 1 + p.items@.len()
                &&& lines[0] == "\nArtists ("@ + decimal(p.total as nat) + " total):"@
                &&& forall|i: int|
                    0 <= i < p.items@.len() ==> #[trigger] lines[1 + i] == "  "@ + decimal(
                        (i + 1) as nat,
                    ) + ". "@ + p.items@[i].name@ + " (Genres: "@ + genres_text(p.items@[i])
                        + ") - "@ + or_empty(p.items@[i].external_urls.spotify)
            },
{
}

/// The albums section of a search answer: none without a page; with one, a
/// heading with the page's total, then the page's albums numbered from 1.
pub proof fn lemma_album_section(page: Option<Paginated<SimplifiedAlbum>>)
    ensures
        page is None ==> album_section(page).len() == 0,
        forall|p: Paginated<SimplifiedAlbum>|
            page == Some(p) ==> {
                let lines = album_section(page);
                &&& lines.len() == 1 + p.items@.len()
                &&& lines[0] == "\nAlbums ("@ + decimal(p.total as nat) + " total):"@
                &&& forall|i: int|
                    0 <= i < p.items@.len() ==> #[trigger] lines[1 + i] == "  "@ + decimal(
                        (i + 1) as nat,
                    ) + ". \""@ + p.items@[i].name@ + "\" by "@ + artists_text(
                        p.items@[i].artists@,
                    ) + " ("@ + or_empty(p.items@[i].release_date) + ") - "@ + or_empty(
                        p.items@[i].external_urls.spotify,
                    )
            },
{
}

/// The playlists section of a search answer: none without a page; with one,
/// a heading with the page's total, then the page's playlists numbered from
/// 1, each with its owner and its own number of tracks.
pub proof fn lemma_playlist_section(page: Option<Paginated<SimplifiedPlaylist>>)
    ensures
        page is None ==> playlist_section(page).len() == 0,
        forall|p: Paginated<SimplifiedPlaylist>|
            page == Some(p) ==> {
                let lines = playlist_section(page);
                &&& lines.len() == 1 + p.items@.len()
                &&& lines[0] == "\nPlaylists ("@ + decimal(p.total as nat) + " total):"@
                &&& forall|i: int|
                    0 <= i < p.items@.len() ==> #[trigger] lines[1 + i] == "  "@ + decimal(
                        (i + 1) as nat,
                    ) + ". \""@ + p.items@[i].name@ + "\" by "@ + owner_text(p.items@[i].owner)
                        + " ("@ + decimal(p.items@[i].tracks.total as nat) + " tracks) - "@
                        + or_empty(p.items@[i].external_urls.spotify)
            },
{
}

/// A search answer lists the tracks, artists, albums and playlists sections
/// in that order, and says `No results found.` exactly when no kind was
/// found at all.
pub proof fn lemma_search_report(r: SearchResult)
    ensures
        search_lines(r) == track_section(r.tracks) + artist_section(r.artists) + album_section(
            r.albums,
        ) + playlist_section(r.playlists),
        (r.tracks is None && r.artists is None && r.albums is None && r.playlists is None)
            ==> search_report(r) == "No results found."@,
        !(r.tracks is None && r.artists is None && r.albums is None && r.playlists is None)
            ==> search_report(r) == joined(search_lines(r), "\n"@),
{
    lemma_track_section(r.tracks);
    lemma_artist_section(r.artists);
    lemma_album_section(r.albums);
    lemma_playlist_section(r.playlists);
}

/// The listening history: a heading with the number of entries, then the
/// entries numbered from 1, each with the time it was played; a fixed
/// sentence when there are none.
pub proof fn lemma_recently_played(r: RecentlyPlayed)
    ensures
        r.items@.len() == 0 ==> recently_played_report(r) == "No recently played tracks."@,
        r.items@.len() > 0 ==> recently_played_report(r) == joined(
            seq!["Recently played ("@ + decimal(r.items@.len()) + " tracks):"@] + Seq::new(
                r.items@.len(),
                |i: int|
                    decimal((i + 1) as nat) + ". "@ + track_text(r.items@[i].track)
                        + " (played at "@ + r.items@[i].played_at@ + ")"@,
            ),
            "\n"@,
        ),
{
    let items = r.items@;
    if items.len() > 0 {
        assert(Seq::new(items.len(), |i: int| history_line((i + 1) as nat, items[i])) =~= Seq::new(
            items.len(),
            |i: int|
                decimal((i + 1) as nat) + ". "@ + track_text(items[i].track) + " (played at "@
                    + items[i].played_at@ + ")"@,
        ));
    }
}

/// The user's playlists: a heading with the total that the page gives (not
/// the number of playlists on the page), then the page's playlists numbered
/// from 1, each public or private with its number of tracks and its ID; a
/// fixed sentence when the page is empty.
pub proof fn lemma_playlists_report(u: UserPlaylists)
    ensures
        u.items@.len() == 0 ==> playlists_report(u) == "No playlists found."@,
        u.items@.len() > 0 ==> playlists_report(u) == joined(
            seq!["Your playlists ("@ + decimal(u.total as nat) + " total):"@] + Seq::new(
                u.items@.len(),
                |i: int|
                    decimal((i + 1) as nat) + ". \""@ + u.items@[i].name@ + "\" ("@ + (if u.items@[
                        i
                    ].public == Some(true) {
                        "public"@
                    } else {
                        "private"@
                    }) + ", "@ + decimal(u.items@[i].tracks.total as nat) + " tracks) - ID: "@
                        + u.items@[i].id@,
            ),
            "\n"@,
        ),
{
    let items = u.items@;
    if items.len() > 0 {
        assert(Seq::new(items.len(), |i: int| own_playlist_line((i + 1) as nat, items[i]))
            =~= Seq::new(
            items.len(),
            |i: int|
                decimal((i + 1) as nat) + ". \""@ + items[i].name@ + "\" ("@ + (if items[i].public
                    == Some(true) {
                    "public"@
                } else {
                    "private"@
                }) + ", "@ + decimal(items[i].tracks.total as nat) + " tracks) - ID: "@
                    + items[i].id@,
        ));
    }
}

/// Liked Songs: a heading with the total, and the positions shown, from the
/// page's offset plus 1 to its offset plus the number of entries; then the
/// entries numbered by their position in the whole list; a fixed sentence
/// when the page is empty.
pub proof fn lemma_saved_tracks_report(v: SavedTracks)
    ensures
        v.items@.len() == 0 ==> saved_tracks_report(v) == "No saved tracks found."@,
        v.items@.len() > 0 ==> saved_tracks_report(v) == joined(
            seq![
                "Liked Songs ("@ + decimal(v.total as nat) + " total, showing "@ + decimal(
                    (v.offset + 1) as nat,
                ) + "-"@ + decimal((v.offset + v.items@.len()) as nat) + "):"@,
            ] + Seq::new(
                v.items@.len(),
                |i: int| decimal((v.offset + i + 1) as nat) + ". "@ + track_text(v.items@[i].track),
            ),
            "\n"@,
        ),
{
    let items = v.items@;
    if items.len() > 0 {
        assert(Seq::new(items.len(), |i: int| saved_line((v.offset + i + 1) as nat, items[i]))
            =~= Seq::new(
            items.len(),
            |i: int| decimal((v.offset + i + 1) as nat) + ". "@ + track_text(items[i].track),
        ));
    }
}

/// The entries of a playlist are shown in order, each available one
/// numbered by its position among all the entries; an entry whose track is
/// not available adds no line but still takes its number. When all entries
/// are available, the i-th line shows the i-th entry, numbered i + 1.
pub proof fn lemma_available_tracks(items: Seq<PlaylistTrack>, k: nat)
    requires
        k < items.len(),
    ensures
        items[k as int].track is None ==> available_tracks(items, k + 1) == available_tracks(
            items,
            k,
        ),
        forall|t: FullTrack|
            items[k as int].track == Some(t) ==> available_tracks(items, k + 1) == available_tracks(
                items,
                k,
            ).push("  "@ + decimal(k + 1) + ". "@ + track_text(t)),
        (forall|j: int| 0 <= j < items.len() ==> #[trigger] items[j].track is Some) ==> {
            &&& available_tracks(items, k).len() == k
            &&& forall|i: int|
                0 <= i < k ==> #[trigger] available_tracks(items, k)[i] == "  "@ + decimal(
                    (i + 1) as nat,
                ) + ". "@ + track_text(items[i].track.unwrap())
        },
    decreases k,
{
    assert(available_tracks(items, k + 1) == available_tracks(items, k) + match items[k as int].track {
        Some(track) => seq![numbered_track("  "@, k + 1, track)],
        None => Seq::<Seq<char>>::empty(),
    });
    if items[k as int].track is None {
        assert(available_tracks(items, k + 1) =~= available_tracks(items, k));
    } else {
        assert(available_tracks(items, k + 1) =~= available_tracks(items, k).push(
            "  "@ + decimal(k + 1) + ". "@ + track_text(items[k as int].track.unwrap()),
        ));
    }
    if forall|j: int| 0 <= j < items.len() ==> #[trigger] items[j].track is Some {
        if k > 0 {
            lemma_available_tracks(items, (k - 1) as nat);
            assert(items[k - 1].track is Some);
        }
    }
}

/// The protocol error codes: `-32001` for authentication and token errors,
/// `-32002` for errors of the Web API, `-32003` for HTTP errors and `-32000`
/// for the rest; two errors share a code exactly when they are of the same
/// of these four kinds.
pub proof fn lemma_error_codes(e: AppError, f: AppError)
    ensures
        (e is Auth || e is Token) <==> error_code_of(e) == -32001,
        e is SpotifyApi <==> error_code_of(e) == -32002,
        e is Http <==> error_code_of(e) == -32003,
        (e is Json || e is Io || e is Other) <==> error_code_of(e) == -32000,
        (error_code_of(e) == error_code_of(f)) <==> ((e is Auth || e is Token) == (f is Auth
            || f is Token) && (e is SpotifyApi == f is SpotifyApi) && (e is Http == f is Http)),
{
}

/// How an answer is handled: `204` to a request whose answer may be empty
/// means there is nothing to read; otherwise any status from 200 to 299 is a
/// success and every other status a failure.
pub proof fn lemma_status_outcomes(status: u16, kind: ResponseKind)
    ensures
        (outcome_of(status, kind) == StatusOutcome::NoContent) <==> (status == 204 && kind
            == ResponseKind::OptionalJson),
        (outcome_of(status, kind) == StatusOutcome::Failure) <==> !(200 <= status < 300),
        (outcome_of(status, kind) == StatusOutcome::Success) <==> (200 <= status < 300 && !(
        status == 204 && kind == ResponseKind::OptionalJson)),
{
}

/// The pair found for a key from position `i` on is the first pair at or
/// after `i` with that key; none is found when no pair there has the key.
pub proof fn lemma_first_value_from(pairs: Seq<(Seq<char>, Seq<char>)>, key: Seq<char>, i: int)
    requires
        0 <= i <= pairs.len(),
    ensures
        first_value_from(pairs, key, i) is None <==> forall|j: int|
            i <= j < pairs.len() ==> #[trigger] pairs[j].0 != key,
        forall|v: Seq<char>|
            first_value_from(pairs, key, i) == Some(v) ==> exists|j: int|
                i <= j < pairs.len() && #[trigger] pairs[j] == (key, v) && forall|m: int|
                    i <= m < j ==> #[trigger] pairs[m].0 != key,
    decreases pairs.len() - i,
{
    if i < pairs.len() {
        lemma_first_value_from(pairs, key, i + 1);
        if pairs[i].0 == key {
            let v = pairs[i].1;
            assert(pairs[i] == (key, v));
        } else {
            assert forall|v: Seq<char>| first_value_from(pairs, key, i) == Some(v) implies exists|
                j: int,
            |
                i <= j < pairs.len() && #[trigger] pairs[j] == (key, v) && forall|m: int|
                    i <= m < j ==> #[trigger] pairs[m].0 != key by {
                let j = choose|j: int|
                    i + 1 <= j < pairs.len() && #[trigger] pairs[j] == (key, v) && forall|m: int|
                        i + 1 <= m < j ==> #[trigger] pairs[m].0 != key;
                assert(forall|m: int| i <= m < j ==> #[trigger] pairs[m].0 != key);
            }
        }
    }
}

/// A callback's code and state are the values of the first `code` and the
/// first `state` pair of its query; a key that no pair has yields nothing.
pub proof fn lemma_first_value(pairs: Seq<(Seq<char>, Seq<char>)>, key: Seq<char>)
    ensures
        first_value(pairs, key) is None <==> forall|j: int|
            0 <= j < pairs.len() ==> #[trigger] pairs[j].0 != key,
        forall|v: Seq<char>|
            first_value(pairs, key) == Some(v) ==> exists|j: int|
                0 <= j < pairs.len() && #[trigger] pairs[j] == (key, v) && forall|m: int|
                    0 <= m < j ==> #[trigger] pairs[m].0 != key,
{
    lemma_first_value_from(pairs, key, 0);
}

/// Whether a word is a non-empty run of characters none of which is white
/// space.
pub open spec fn is_word(w: Seq<char>) -> bool {
    w.len() > 0 && forall|i: int| 0 <= i < w.len() ==> !is_white_space(#[trigger] w[i])
}

proof fn lemma_scan_words(s: Seq<char>)
    ensures
        forall|k: int| 0 <= k < scan_words(s).0.len() ==> is_word(#[trigger] scan_words(s).0[k]),
        forall|i: int|
            0 <= i < scan_words(s).1.len() ==> !is_white_space(#[trigger] scan_words(s).1[i]),
    decreases s.len(),
{
    if s.len() > 0 {
        lemma_scan_words(s.drop_last());
        let before = scan_words(s.drop_last());
        if !is_white_space(s.last()) {
            let w = before.1.push(s.last());
            assert forall|i: int| 0 <= i < w.len() implies !is_white_space(#[trigger] w[i]) by {
                if i < before.1.len() {
                    assert(w[i] == before.1[i]);
                }
            }
        } else if before.1.len() > 0 {
            let done = before.0.push(before.1);
            assert forall|k: int| 0 <= k < done.len() implies is_word(#[trigger] done[k]) by {
                if k < before.0.len() {
                    assert(done[k] == before.0[k]);
                }
            }
        }
    }
}

/// The words of a line are non-empty and hold no white space; a non-empty
/// line without white space is one word.
pub proof fn lemma_words(s: Seq<char>)
    ensures
        forall|k: int| 0 <= k < words(s).len() ==> is_word(#[trigger] words(s)[k]),
        is_word(s) ==> words(s) == seq![s],
{
    lemma_scan_words(s);
    let sc = scan_words(s);
    if sc.1.len() > 0 {
        let all = sc.0.push(sc.1);
        assert forall|k: int| 0 <= k < all.len() implies is_word(#[trigger] all[k]) by {
            if k < sc.0.len() {
                assert(all[k] == sc.0[k]);
            }
        }
    }
    if is_word(s) {
        lemma_scan_single_word(s);
    }
}

proof fn lemma_scan_single_word(s: Seq<char>)
    requires
        forall|i: int| 0 <= i < s.len() ==> !is_white_space(#[trigger] s[i]),
    ensures
        scan_words(s) == (Seq::<Seq<char>>::empty(), s),
    decreases s.len(),
{
    if s.len() > 0 {
        let t = s.drop_last();
        assert forall|i: int| 0 <= i < t.len() implies !is_white_space(#[trigger] t[i]) by {
            assert(t[i] == s[i]);
        }
        lemma_scan_single_word(t);
        assert(!is_white_space(s[s.len() - 1]));
        assert(t.push(s.last()) =~= s);
    } else {
        assert(s =~= Seq::<char>::empty());
    }
}

/// A token counts as expired from exactly one minute before its expiry on:
/// for instants with valid nanoseconds, it is expired at `now` exactly when
/// `now` is not earlier than the expiry less 60 seconds.
pub proof fn lemma_expiry_margin(token: TokenData, now: Timestamp)
    requires
        now.nanos < 1_000_000_000,
        token.expires_at.nanos < 1_000_000_000,
    ensures
        expired_at(token, now) <==> now.secs * 1_000_000_000 + now.nanos >= (token.expires_at.secs
            - 60) * 1_000_000_000 + token.expires_at.nanos,
{
}

/// A token's lifetime is what the authorization server said, and an hour
/// when it said nothing.
pub proof fn lemma_lifetime(expires_in: Option<u64>)
    ensures
        expires_in is None ==> lifetime(expires_in) == 3600,
        forall|s: u64| expires_in == Some(s) && s <= i64::MAX ==> lifetime(expires_in) == s,
{
}

/// The device is named in a request's path only when one is given, then at
/// the end, after the separator, as `device_id=`.
pub proof fn lemma_with_device(path: Seq<char>, sep: Seq<char>, device_id: Option<&str>)
    ensures
        device_id is None ==> with_device(path, sep, device_id) == path,
        forall|id: &str|
            device_id == Some(id) ==> with_device(path, sep, device_id) == path + sep
                + "device_id="@ + id@,
        with_device(path, sep, device_id).subrange(0, path.len() as int) == path,
{
    assert(with_device(path, sep, device_id).subrange(0, path.len() as int) =~= path);
}

/// A `play` request carries no body when neither a context nor tracks are
/// given; otherwise an object with the context first when given, then the
/// tracks when given.
pub proof fn lemma_play_body(context_uri: Option<&str>, uris: Option<&[String]>)
    ensures
        play_body(context_uri, uris) is None <==> (context_uri is None && uris is None),
        forall|c: &str, u: &[String]|
            context_uri == Some(c) && uris == Some(u) ==> play_body(context_uri, uris) == Some(
                Json::Object(seq![("context_uri"@, Json::Text(c@)), ("uris"@, text_array(views(u@)))]),
            ),
        forall|c: &str|
            context_uri == Some(c) && uris is None ==> play_body(context_uri, uris) == Some(
                Json::Object(seq![("context_uri"@, Json::Text(c@))]),
            ),
        forall|u: &[String]|
            context_uri is None && uris == Some(u) ==> play_body(context_uri, uris) == Some(
                Json::Object(seq![("uris"@, text_array(views(u@)))]),
            ),
{
    match (context_uri, uris) {
        (Some(c), Some(u)) => {
            assert(seq![("context_uri"@, Json::Text(c@))] + seq![("uris"@, text_array(views(u@)))]
                =~= seq![("context_uri"@, Json::Text(c@)), ("uris"@, text_array(views(u@)))]);
        },
        (Some(c), None) => {
            assert(seq![("context_uri"@, Json::Text(c@))] + Seq::empty() =~= seq![
                ("context_uri"@, Json::Text(c@)),
            ]);
        },
        (None, Some(u)) => {
            assert(Seq::empty() + seq![("uris"@, text_array(views(u@)))] =~= seq![
                ("uris"@, text_array(views(u@))),
            ]);
        },
        (None, None) => {},
    }
}

} // verus!
