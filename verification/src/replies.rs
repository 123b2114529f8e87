//! The short confirmations that tools which change something answer with.

use vstd::prelude::*;

use crate::models::{FullPlaylist, SnapshotResponse};
use crate::render::{duration_text, format_duration};
use crate::text::{decimal, decimal_string};

verus! {

/// A change whose confirmation has no detail in it.
#[derive(Debug, Clone, Copy, PartialEq, Eq)]
pub enum Acknowledgement {
    Play,
    Pause,
    NextTrack,
    PreviousTrack,
    UpdatePlaylist,
}

/// The confirmation of a change that has no detail in it.
pub open spec fn acknowledgement_report(ack: Acknowledgement) -> Seq<char> {
    match ack {
        Acknowledgement::Play => "Playback started/resumed."@,
        Acknowledgement::Pause => "Playback paused."@,
        Acknowledgement::NextTrack => "Skipped to next track."@,
        Acknowledgement::PreviousTrack => "Skipped to previous track."@,
        Acknowledgement::UpdatePlaylist => "Playlist updated."@,
    }
}

/// The confirmation of a change that has no detail in it.
pub fn acknowledgement_text(ack: Acknowledgement) -> (res: String)
    ensures
        res@ == acknowledgement_report(ack),
{
    match ack {
        Acknowledgement::Play => String::from_str("Playback started/resumed."),
        Acknowledgement::Pause => String::from_str("Playback paused."),
        Acknowledgement::NextTrack => String::from_str("Skipped to next track."),
        Acknowledgement::PreviousTrack => String::from_str("Skipped to previous track."),
        Acknowledgement::UpdatePlaylist => String::from_str("Playlist updated."),
    }
}

/// `prefix`, the number, then `suffix`.
fn counted(prefix: &str, n: u64, suffix: &str) -> (res: String)
    ensures
        res@ == prefix@ + decimal(n as nat) + suffix@,
{
    let mut res = String::from_str(prefix);
    let digits = decimal_string(n);
    res.append(digits.as_str());
    res.append(suffix);
    res
}

/// The answer of `set_volume`.
pub fn volume_text(volume_percent: u32) -> (res: String)
    ensures
        res@ == "Volume set to "@ + decimal(volume_percent as nat) + "%."@,
{
    counted("Volume set to ", volume_percent as u64, "%.")
}

/// The answer of `set_shuffle`.
pub fn shuffle_text(state: bool) -> (res: String)
    ensures
        res@ == "Shuffle "@ + (if state {
            "enabled"@
        } else {
            "disabled"@
        }) + "."@,
{
    let mut res = String::from_str("Shuffle ");
    if state {
        res.append("enabled");
    } else {
        res.append("disabled");
    }
    res.append(".");
    res
}

/// The answer of `set_repeat`.
pub fn repeat_text(state: &str) -> (res: String)
    ensures
        res@ == "Repeat mode set to '"@ + state@ + "'."@,
{
    let mut res = String::from_str("Repeat mode set to '");
    res.append(state);
    res.append("'.");
    res
}

/// The answer of `seek`.
pub fn seek_text(position_ms: u64) -> (res: String)
    ensures
        res@ == "Seeked to "@ + duration_text(position_ms as nat) + "."@,
{
    let mut res = String::from_str("Seeked to ");
    let at = format_duration(position_ms);
    res.append(at.as_str());
    res.append(".");
    res
}

/// The answer of `add_to_queue`.
pub fn queued_text(uri: &str) -> (res: String)
    ensures
        res@ == "Added "@ + uri@ + " to queue."@,
{
    let mut res = String::from_str("Added ");
    res.append(uri);
    res.append(" to queue.");
    res
}

/// The answer of `create_playlist`.
pub fn created_playlist_text(playlist: &FullPlaylist) -> (res: String)
    ensures
        res@ == "Created playlist \""@ + playlist.name@ + "\" (ID: "@ + playlist.id@ + ")"@,
{
    let mut res = String::from_str("Created playlist \"");
    res.append(playlist.name.as_str());
    res.append("\" (ID: ");
    res.append(playlist.id.as_str());
    res.append(")");
    res
}

/// The answer of `add_tracks_to_playlist`.
pub fn tracks_added_text(count: usize, snapshot: &SnapshotResponse) -> (res: String)
    ensures
        res@ == "Added "@ + decimal(count as nat) + " track(s) to playlist. Snapshot: "@
            + snapshot.snapshot_id@,
{
    let mut res = counted("Added ", count as u64, " track(s) to playlist. Snapshot: ");
    res.append(snapshot.snapshot_id.as_str());
    res
}

/// The answer of `remove_tracks_from_playlist`.
pub fn tracks_removed_text(count: usize) -> (res: String)
    ensures
        res@ == "Removed "@ + decimal(count as nat) + " track(s) from playlist."@,
{
    counted("Removed ", count as u64, " track(s) from playlist.")
}

/// The answer of `reorder_playlist_tracks`.
pub fn reordered_text(snapshot: &SnapshotResponse) -> (res: String)
    ensures
        res@ == "Reordered tracks in playlist. Snapshot: "@ + snapshot.snapshot_id@,
{
    let mut res = String::from_str("Reordered tracks in playlist. Snapshot: ");
    res.append(snapshot.snapshot_id.as_str());
    res
}

/// The answer of `replace_playlist_tracks`.
pub fn replaced_text(count: usize, snapshot: &SnapshotResponse) -> (res: String)
    ensures
        res@ == "Replaced all tracks in playlist ("@ + decimal(count as nat) + " tracks). Snapshot: "@
            + snapshot.snapshot_id@,
{
    let mut res = counted("Replaced all tracks in playlist (", count as u64, " tracks). Snapshot: ");
    res.append(snapshot.snapshot_id.as_str());
    res
}

/// The answer of `save_tracks`.
pub fn saved_text(count: usize) -> (res: String)
    ensures
        res@ == "Saved "@ + decimal(count as nat) + " track(s) to Liked Songs."@,
{
    counted("Saved ", count as u64, " track(s) to Liked Songs.")
}

/// The answer of `remove_saved_tracks`.
pub fn unsaved_text(count: usize) -> (res: String)
    ensures
        res@ == "Removed "@ + decimal(count as nat) + " track(s) from Liked Songs."@,
{
    counted("Removed ", count as u64, " track(s) from Liked Songs.")
}

} // verus!
