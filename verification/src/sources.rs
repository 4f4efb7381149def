//! Edge detection for the activity sources.
//!
//! Each watcher is polled on its own cadence with a raw observation — is a
//! camera in use, does any audio session record, is a media session playing —
//! and decides which event, if any, to broadcast. The polling threads and the
//! system queries live with the caller; the watchers hold the state those
//! loops carried and make their decisions exactly.

use vstd::prelude::*;

use crate::events::CoreEvent;
use crate::media::MediaState;

verus! {

/// How many consecutive idle polls release the camera indicator.
pub const CAMERA_IDLE_POLLS: u32 = 10;

/// A counter increment that stays put at the counter's ceiling.
pub open spec fn counted_up(c: u32) -> u32 {
    if c < u32::MAX {
        (c + 1) as u32
    } else {
        c
    }
}

/// Debounces camera activity: going into use reports at once, going idle
/// reports only after more than `CAMERA_IDLE_POLLS` consecutive idle polls,
/// so a camera briefly released between captures does not flicker.
pub struct CameraWatch {
    pub active: bool,
    pub idle_polls: u32,
}

/// The camera watcher state after observing `in_use`.
pub open spec fn camera_watch_after(w: CameraWatch, in_use: bool) -> (CameraWatch, Option<
    CoreEvent,
>) {
    if in_use && !w.active {
        (CameraWatch { active: true, idle_polls: 0 }, Some(CoreEvent::CameraActive))
    } else if !in_use {
        let polls = counted_up(w.idle_polls);
        if polls > CAMERA_IDLE_POLLS && w.active {
            (CameraWatch { active: false, idle_polls: polls }, Some(CoreEvent::CameraIdle))
        } else {
            (CameraWatch { idle_polls: polls, ..w }, None::<CoreEvent>)
        }
    } else {
        (w, None::<CoreEvent>)
    }
}

impl CameraWatch {
    /// A watcher that has seen no camera activity.
    pub fn new() -> (w: Self)
        ensures
            !w.active,
            w.idle_polls == 0,
    {
        CameraWatch { active: false, idle_polls: 0 }
    }

    /// Observe one poll of the camera and decide the event to broadcast.
    pub fn observe(&mut self, in_use: bool) -> (ev: Option<CoreEvent>)
        ensures
            final(self).active == camera_watch_after(*old(self), in_use).0.active,
            final(self).idle_polls == camera_watch_after(*old(self), in_use).0.idle_polls,
            ev == camera_watch_after(*old(self), in_use).1,
    {
        if in_use && !self.active {
            self.active = true;
            self.idle_polls = 0;
            return Some(CoreEvent::CameraActive);
        }
        if !in_use {
            if self.idle_polls < u32::MAX {
                self.idle_polls = self.idle_polls + 1;
            }
            if self.idle_polls > CAMERA_IDLE_POLLS && self.active {
                self.active = false;
                return Some(CoreEvent::CameraIdle);
            }
        }
        None
    }
}

/// Watches whether any audio capture session is recording and reports the
/// edges: activation carries a zero level until the capture loop measures
/// one.
pub struct MicSessionWatch {
    pub active: bool,
}

/// The microphone watcher state after observing `any_session_active`.
pub open spec fn mic_watch_after(w: MicSessionWatch, any_session_active: bool) -> (
    MicSessionWatch,
    Option<CoreEvent>,
) {
    if any_session_active && !w.active {
        (MicSessionWatch { active: true }, Some(CoreEvent::MicActive(0)))
    } else if !any_session_active && w.active {
        (MicSessionWatch { active: false }, Some(CoreEvent::MicIdle))
    } else {
        (w, None::<CoreEvent>)
    }
}

impl MicSessionWatch {
    /// A watcher that has seen no recording session.
    pub fn new() -> (w: Self)
        ensures
            !w.active,
    {
        MicSessionWatch { active: false }
    }

    /// Observe one poll of the audio sessions and decide the event to
    /// broadcast.
    pub fn observe(&mut self, any_session_active: bool) -> (ev: Option<CoreEvent>)
        ensures
            final(self).active == mic_watch_after(*old(self), any_session_active).0.active,
            ev == mic_watch_after(*old(self), any_session_active).1,
    {
        if any_session_active && !self.active {
            self.active = true;
            return Some(CoreEvent::MicActive(0));
        }
        if !any_session_active && self.active {
            self.active = false;
            return Some(CoreEvent::MicIdle);
        }
        None
    }
}

/// Watches the media session: every poll that finds it playing rebroadcasts
/// the snapshot, and the first poll that no longer does reports the stop.
pub struct MediaWatch {
    pub playing: bool,
}

impl MediaWatch {
    /// A watcher that has seen no playback.
    pub fn new() -> (w: Self)
        ensures
            !w.playing,
    {
        MediaWatch { playing: false }
    }

    /// Observe one poll of the media session: `session` is its snapshot when
    /// one could be read. Playing sessions broadcast their snapshot each
    /// poll; the stop is broadcast once, on the first poll after playback.
    pub fn observe(&mut self, session: Option<MediaState>) -> (ev: Option<CoreEvent>)
        ensures
            match session {
                Some(state) => {
                    if state.playing {
                        final(self).playing && ev == Some(CoreEvent::MediaUpdated(state))
                    } else {
                        !final(self).playing && ev == (if old(self).playing {
                            Some(CoreEvent::MediaStopped)
                        } else {
                            None::<CoreEvent>
                        })
                    }
                },
                None => !final(self).playing && ev == (if old(self).playing {
                    Some(CoreEvent::MediaStopped)
                } else {
                    None::<CoreEvent>
                }),
            },
    {
        match session {
            Some(state) => {
                if state.playing {
                    self.playing = true;
                    Some(CoreEvent::MediaUpdated(state))
                } else {
                    if self.playing {
                        self.playing = false;
                        Some(CoreEvent::MediaStopped)
                    } else {
                        None
                    }
                }
            },
            None => {
                if self.playing {
                    self.playing = false;
                    Some(CoreEvent::MediaStopped)
                } else {
                    None
                }
            },
        }
    }
}

} // verus!
