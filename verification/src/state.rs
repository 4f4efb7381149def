//! Island states and the mode arbiter.
//!
//! Activity sources (camera, microphone, media playback) report a desired
//! mode; the arbiter decides which mode wins and which island state to
//! announce. A higher-priority mode takes over at once, while a step down to
//! a lower-priority mode must be requested repeatedly before it is applied,
//! so short gaps in a source's activity do not make the island flicker.

use vstd::prelude::*;

use crate::motion::IslandMotionState;
use crate::motion::with_expanded_targets;
use crate::motion::with_idle_targets;

verus! {

/// What the island currently shows.
#[derive(Debug, Clone)]
pub enum IslandState {
    IdleDormant,
    BriefPulse(PulseReason),
    ActiveWidget(ActivityKind),
    PrivacyIndicator(PrivacyKind),
    ControlCenter,
}

/// Why a brief pulse was shown.
#[derive(Debug, Clone)]
pub enum PulseReason {
    Bluetooth,
    Wifi,
    Battery,
    Usb,
    Other(String),
}

/// Which ongoing activity the island widget presents.
#[derive(Debug, Clone)]
pub enum ActivityKind {
    Media,
    Call,
    Timer,
}

/// Which privacy-sensitive device is in use.
#[derive(Debug, Clone)]
pub enum PrivacyKind {
    Microphone,
    Camera,
    ScreenCapture,
}

/// The mode a source asks for; one of these is active at a time.
#[derive(Debug, Clone, Copy, PartialEq, Eq, Structural)]
pub enum ActiveMode {
    Camera,
    Mic,
    Media,
    Idle,
}

/// How strongly a mode holds the island: a new mode with lower priority must
/// wait out the arbiter's cooldown.
pub open spec fn mode_priority(m: ActiveMode) -> int {
    match m {
        ActiveMode::Camera => 3,
        ActiveMode::Mic => 2,
        ActiveMode::Media => 1,
        ActiveMode::Idle => 0,
    }
}

/// The island state announced when a mode becomes active.
pub open spec fn spec_state_for(m: ActiveMode) -> IslandState {
    match m {
        ActiveMode::Camera => IslandState::PrivacyIndicator(PrivacyKind::Camera),
        ActiveMode::Mic => IslandState::PrivacyIndicator(PrivacyKind::Microphone),
        ActiveMode::Media => IslandState::ActiveWidget(ActivityKind::Media),
        ActiveMode::Idle => IslandState::IdleDormant,
    }
}

/// The island state announced when `m` becomes the active mode.
pub fn state_for(m: ActiveMode) -> (s: IslandState)
    ensures
        s == spec_state_for(m),
{
    match m {
        ActiveMode::Camera => IslandState::PrivacyIndicator(PrivacyKind::Camera),
        ActiveMode::Mic => IslandState::PrivacyIndicator(PrivacyKind::Microphone),
        ActiveMode::Media => IslandState::ActiveWidget(ActivityKind::Media),
        ActiveMode::Idle => IslandState::IdleDormant,
    }
}

/// How many consecutive lower-priority requests the arbiter ignores before it
/// lets the mode step down.
pub const COOLDOWN_FRAMES: u32 = 10;

/// Arbiter state after a mode change is applied (or kept) once any cooldown
/// gate has been passed.
pub open spec fn applied_mode(c: IslandCore, new: ActiveMode) -> (IslandCore, Option<IslandState>) {
    if new == c.current_mode {
        (c, None::<IslandState>)
    } else {
        (
            IslandCore { state: spec_state_for(new), current_mode: new, ..c },
            Some(spec_state_for(new)),
        )
    }
}

/// Arbiter state and announced event after one mode request.
pub open spec fn arbiter_step(c: IslandCore, new: ActiveMode) -> (IslandCore, Option<IslandState>) {
    if mode_priority(new) < mode_priority(c.current_mode) {
        if c.cooldown_frames > COOLDOWN_FRAMES {
            applied_mode(IslandCore { cooldown_frames: 0, ..c }, new)
        } else {
            (IslandCore { cooldown_frames: (c.cooldown_frames + 1) as u32, ..c }, None::<IslandState>)
        }
    } else {
        applied_mode(c, new)
    }
}

/// The mode arbiter: the island state it has announced, the mode currently
/// holding the island, and how many lower-priority requests it has absorbed.
pub struct IslandCore {
    pub state: IslandState,
    pub current_mode: ActiveMode,
    pub cooldown_frames: u32,
}

impl IslandCore {
    pub open spec fn wf(self) -> bool {
        self.cooldown_frames <= COOLDOWN_FRAMES + 1
    }

    /// A dormant island in idle mode.
    pub fn new() -> (c: Self)
        ensures
            c.state is IdleDormant,
            c.current_mode is Idle,
            c.cooldown_frames == 0,
            c.wf(),
    {
        IslandCore {
            state: IslandState::IdleDormant,
            current_mode: ActiveMode::Idle,
            cooldown_frames: 0,
        }
    }

    /// Request a mode. Returns the island state to announce when the request
    /// changes the mode; a repeated mode, or a step down still inside the
    /// cooldown, changes nothing and announces nothing.
    pub fn update_mode(&mut self, new: ActiveMode) -> (event: Option<IslandState>)
        requires
            old(self).wf(),
        ensures
            (*final(self), event) == arbiter_step(*old(self), new),
            final(self).wf(),
    {
        if mode_priority_exec(new) < mode_priority_exec(self.current_mode) {
            if self.cooldown_frames > COOLDOWN_FRAMES {
                self.cooldown_frames = 0;
            } else {
                self.cooldown_frames = self.cooldown_frames + 1;
                return None;
            }
        }
        if new == self.current_mode {
            return None;
        }
        self.current_mode = new;
        self.state = state_for(new);
        Some(state_for(new))
    }
}

fn mode_priority_exec(m: ActiveMode) -> (p: u32)
    ensures
        p as int == mode_priority(m),
{
    match m {
        ActiveMode::Camera => 3,
        ActiveMode::Mic => 2,
        ActiveMode::Media => 1,
        ActiveMode::Idle => 0,
    }
}

/// The visual register the island window shows for a state.
#[derive(Debug, Clone, Copy, PartialEq, Eq, Structural)]
pub enum IslandVisualMode {
    Dormant,
    Pulse,
    Activity,
    Privacy,
}

/// The visual register for each island state.
pub open spec fn spec_visual_for(s: IslandState) -> IslandVisualMode {
    match s {
        IslandState::IdleDormant => IslandVisualMode::Dormant,
        IslandState::BriefPulse(_) => IslandVisualMode::Pulse,
        IslandState::ActiveWidget(_) => IslandVisualMode::Activity,
        IslandState::PrivacyIndicator(_) => IslandVisualMode::Privacy,
        IslandState::ControlCenter => IslandVisualMode::Activity,
    }
}

/// Map an island state to the visual register the window shows.
pub fn visual_for(s: &IslandState) -> (v: IslandVisualMode)
    ensures
        v == spec_visual_for(*s),
{
    match s {
        IslandState::IdleDormant => IslandVisualMode::Dormant,
        IslandState::BriefPulse(_) => IslandVisualMode::Pulse,
        IslandState::ActiveWidget(_) => IslandVisualMode::Activity,
        IslandState::PrivacyIndicator(_) => IslandVisualMode::Privacy,
        IslandState::ControlCenter => IslandVisualMode::Activity,
    }
}

/// Retarget the motion springs for a visual register: the dormant register
/// settles on the idle preset, every other register expands the island.
pub fn apply_visual(island: &mut IslandMotionState, v: IslandVisualMode)
    ensures
        v is Dormant ==> *final(island) == with_idle_targets(*old(island)),
        !(v is Dormant) ==> *final(island) == with_expanded_targets(*old(island)),
{
    match v {
        IslandVisualMode::Dormant => island.set_idle(),
        _ => island.set_expanded(),
    }
}

/// The arbiter never desynchronises: if the stored island state matches the
/// holding mode, it still does after any request, absorbed or applied.
pub proof fn lemma_state_tracks_mode(c: IslandCore, new: ActiveMode)
    requires
        c.state == spec_state_for(c.current_mode),
    ensures
        arbiter_step(c, new).0.state == spec_state_for(arbiter_step(c, new).0.current_mode),
{
}

/// A mode request never announces one thing and stores another: whenever the
/// arbiter announces a state it is exactly the state it now holds, under the
/// mode that was requested.
pub proof fn lemma_announced_state_matches(c: IslandCore, new: ActiveMode)
    ensures
        arbiter_step(c, new).1 is Some ==> arbiter_step(c, new).1 == Some(
            arbiter_step(c, new).0.state,
        ),
        arbiter_step(c, new).1 is Some ==> arbiter_step(c, new).0.current_mode == new,
{
}

} // verus!
