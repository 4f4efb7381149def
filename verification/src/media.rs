//! Media-session snapshot handed to the island widget.
//!
//! The session itself lives with the operating system; the caller polls it
//! and fills this snapshot with plain values. The two helpers below carry the
//! computed parts of that fill: the playback state derived from the playing
//! flag, and the conversion of timeline positions from the session clock's
//! hundred-nanosecond ticks to milliseconds.

use vstd::prelude::*;

verus! {

/// Playback state of the current media session.
#[derive(Debug, Clone)]
pub enum PlaybackState {
    Playing,
    Paused,
    Stopped,
}

/// Kind of media the session plays.
#[derive(Debug, Clone)]
pub enum MediaType {
    Music,
    Video,
    Stream,
    Unknown,
}

/// Snapshot of the current media session.
#[derive(Debug, Clone)]
pub struct MediaState {
    pub app_name: Option<String>,
    pub app_id: Option<String>,
    pub app_icon: Option<Vec<u8>>,
    pub title: Option<String>,
    pub artist: Option<String>,
    pub album: Option<String>,
    pub duration_ms: Option<u64>,
    pub position_ms: Option<u64>,
    pub playing: bool,
    pub playback_state: PlaybackState,
    pub media_type: MediaType,
    pub artwork: Option<Vec<u8>>,
}

/// The playback state recorded for a session that is or is not playing.
pub fn playback_of(playing: bool) -> (p: PlaybackState)
    ensures
        playing <==> p is Playing,
        !playing ==> p is Paused,
{
    if playing {
        PlaybackState::Playing
    } else {
        PlaybackState::Paused
    }
}

/// Hundred-nanosecond session-clock ticks per millisecond.
pub const TICKS_PER_MS: i64 = 10_000;

/// Convert a non-negative session-clock duration to whole milliseconds.
pub fn clock_ticks_to_ms(d: i64) -> (ms: u64)
    requires
        d >= 0,
    ensures
        ms as int == d as int / TICKS_PER_MS as int,
{
    (d / TICKS_PER_MS) as u64
}

} // verus!
