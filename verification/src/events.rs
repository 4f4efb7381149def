//! Events the activity sources broadcast to the island.
//!
//! Continuous levels travel as fixed-point micro-units (`MICROS` micro-units
//! are full scale), like every other scalar in the library.

use vstd::prelude::*;

use crate::media::MediaState;
use crate::state::ActiveMode;
use crate::state::IslandState;

verus! {

/// One event on the island's broadcast channel.
#[derive(Debug, Clone)]
pub enum CoreEvent {
    /// The arbiter announced a new island state.
    StateChanged(IslandState),
    /// A media session is playing; the snapshot travels with the event.
    MediaUpdated(MediaState),
    /// The media session stopped playing.
    MediaStopped,
    /// The microphone is in use, with the current input level in micro-units.
    MicActive(i64),
    /// The microphone fell silent.
    MicIdle,
    /// A camera went into use.
    CameraActive,
    /// The camera was released.
    CameraIdle,
    /// One frame of the audio visualizer level, in micro-units.
    VisualizerFrame(i64),
}

/// The mode an event asks the arbiter for, if any.
pub open spec fn spec_mode_request(ev: CoreEvent) -> Option<ActiveMode> {
    match ev {
        CoreEvent::CameraActive => Some(ActiveMode::Camera),
        CoreEvent::CameraIdle => Some(ActiveMode::Idle),
        CoreEvent::MicActive(_) => Some(ActiveMode::Mic),
        CoreEvent::MicIdle => Some(ActiveMode::Idle),
        CoreEvent::MediaUpdated(_) => Some(ActiveMode::Media),
        CoreEvent::MediaStopped => Some(ActiveMode::Idle),
        CoreEvent::StateChanged(_) => None,
        CoreEvent::VisualizerFrame(_) => None,
    }
}

/// The mode request an event carries for the arbiter: source activity asks
/// for its mode, a source falling idle asks for the idle mode, and the other
/// events request nothing.
pub fn mode_request_for(ev: &CoreEvent) -> (m: Option<ActiveMode>)
    ensures
        m == spec_mode_request(*ev),
{
    match ev {
        CoreEvent::CameraActive => Some(ActiveMode::Camera),
        CoreEvent::CameraIdle => Some(ActiveMode::Idle),
        CoreEvent::MicActive(_) => Some(ActiveMode::Mic),
        CoreEvent::MicIdle => Some(ActiveMode::Idle),
        CoreEvent::MediaUpdated(_) => Some(ActiveMode::Media),
        CoreEvent::MediaStopped => Some(ActiveMode::Idle),
        CoreEvent::StateChanged(_) => None,
        CoreEvent::VisualizerFrame(_) => None,
    }
}

} // verus!
