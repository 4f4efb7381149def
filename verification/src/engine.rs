//! Per-tick orchestration of the overlay pipeline.
//!
//! A fixed-cadence timer drives `tick`. Each tick first advances the motion
//! springs by the clamped elapsed time, then decides what the renderer must
//! do: nothing when no fresh capture frame arrived (the previous presented
//! frame stays on screen), or one composite draw when a frame is available.
//! The draw carries a snapshot of the four spring values and the region
//! mapping recomputed from the window's current geometry and the frame's
//! dimensions, so the uploaded capture size always matches the frame that is
//! imported this tick. The caller owns the render loop: it drains the frame
//! mailbox, hands the result in, and executes the returned action against the
//! GPU; a failed draw only loses that tick.

use vstd::prelude::*;

use crate::motion::IslandMotionState;
use crate::motion::MotionDriver;
use crate::motion::driver_after;
use crate::region::PixelSize;
use crate::region::RegionParams;
use crate::region::ScreenPos;

verus! {

/// The overlay window's current screen rectangle, polled once per tick.
#[derive(Clone, Copy, Debug, PartialEq, Eq, Structural)]
pub struct WindowGeometry {
    pub pos_x: i32,
    pub pos_y: i32,
    pub width: u32,
    pub height: u32,
}

/// What the tick needs to know of a captured frame: its pixel dimensions.
#[derive(Clone, Copy, Debug, PartialEq, Eq, Structural)]
pub struct FrameInfo {
    pub width: u32,
    pub height: u32,
}

/// Island shape parameters snapshotted from the motion springs for one
/// composite draw, in micro-units.
#[derive(Clone, Copy, Debug, PartialEq, Eq, Structural)]
pub struct IslandParams {
    pub scale: i64,
    pub radius: i64,
    pub glow_power: i64,
    pub shadow_power: i64,
}

/// What the renderer must do after a tick.
#[derive(Clone, Copy, Debug, PartialEq, Eq, Structural)]
pub enum TickAction {
    /// No fresh frame: present nothing, keep the previous image on screen.
    Skip,
    /// Import the taken frame, run the stage chain, upload both parameter
    /// sets and issue the composite draw.
    Draw { island: IslandParams, region: RegionParams },
}

/// Snapshot of the current spring values as draw parameters.
pub open spec fn params_of(island: IslandMotionState) -> IslandParams {
    IslandParams {
        scale: island.scale.value,
        radius: island.radius.value,
        glow_power: island.glow.value,
        shadow_power: island.shadow.value,
    }
}

/// Region mapping for a window rectangle and a capture frame's dimensions.
pub open spec fn region_of(window: WindowGeometry, frame: FrameInfo) -> RegionParams {
    RegionParams {
        window_pos: ScreenPos { x: window.pos_x, y: window.pos_y },
        window_size: PixelSize { width: window.width, height: window.height },
        capture_size: PixelSize { width: frame.width, height: frame.height },
    }
}

/// The action a tick at clock `now_us` takes: a draw exactly when a frame was
/// available, with parameters snapshotted after the motion update.
pub open spec fn tick_action(
    e: LiquidGlassEngine,
    now_us: u64,
    window: WindowGeometry,
    frame: Option<FrameInfo>,
) -> TickAction {
    match frame {
        None => TickAction::Skip,
        Some(f) => TickAction::Draw {
            island: params_of(driver_after(e.motion, now_us).island),
            region: region_of(window, f),
        },
    }
}

/// The verified core of the overlay engine: the motion driver it advances and
/// the tick decisions it makes. The GPU context, capture session and window
/// live with the caller.
pub struct LiquidGlassEngine {
    pub motion: MotionDriver,
}

impl LiquidGlassEngine {
    pub open spec fn wf(self) -> bool {
        self.motion.wf()
    }

    /// An engine whose motion starts idle at clock reading `now_us`.
    pub fn new(now_us: u64) -> (e: Self)
        ensures
            e.motion.last_time_us == now_us,
            e.motion.island == IslandMotionState::new_spec(),
            e.wf(),
    {
        LiquidGlassEngine { motion: MotionDriver::new(now_us) }
    }

    /// One tick: advance motion by the clamped elapsed time, then decide the
    /// renderer's work. `frame` is the newest captured frame taken from the
    /// mailbox, if any; without one the tick draws nothing, with one it
    /// orders a single composite draw whose region mapping carries the
    /// window's current rectangle and exactly that frame's dimensions.
    pub fn tick(&mut self, now_us: u64, window: WindowGeometry, frame: Option<FrameInfo>) -> (a:
        TickAction)
        requires
            old(self).wf(),
        ensures
            final(self).motion == driver_after(old(self).motion, now_us),
            final(self).wf(),
            a == tick_action(*old(self), now_us, window, frame),
            frame is None <==> a is Skip,
    {
        self.motion.update(now_us);
        match frame {
            None => TickAction::Skip,
            Some(f) => {
                let island: IslandParams = IslandParams {
                    scale: self.motion.island.scale.value,
                    radius: self.motion.island.radius.value,
                    glow_power: self.motion.island.glow.value,
                    shadow_power: self.motion.island.shadow.value,
                };
                let region: RegionParams = RegionParams {
                    window_pos: ScreenPos { x: window.pos_x, y: window.pos_y },
                    window_size: PixelSize { width: window.width, height: window.height },
                    capture_size: PixelSize { width: f.width, height: f.height },
                };
                TickAction::Draw { island, region }
            },
        }
    }
}

/// A tick without a capture frame performs no draw, while motion still
/// advances by the clamped elapsed time; so any run of frameless ticks
/// performs zero draws.
pub proof fn lemma_no_frame_no_draw(
    e: LiquidGlassEngine,
    now_us: u64,
    window: WindowGeometry,
)
    ensures
        tick_action(e, now_us, window, None) is Skip,
        driver_after(e.motion, now_us).last_time_us == now_us,
{
}

/// Delivering exactly one frame yields exactly one draw: the tick that takes
/// it draws once, with the frame's dimensions as the capture size, and the
/// next tick finds the mailbox empty and skips.
pub proof fn lemma_one_frame_one_draw(
    e0: LiquidGlassEngine,
    now0: u64,
    now1: u64,
    window: WindowGeometry,
    f: FrameInfo,
)
    ensures
        tick_action(e0, now0, window, Some(f)) == (TickAction::Draw {
            island: params_of(driver_after(e0.motion, now0).island),
            region: region_of(window, f),
        }),
        region_of(window, f).capture_size == (PixelSize { width: f.width, height: f.height }),
        tick_action(
            LiquidGlassEngine { motion: driver_after(e0.motion, now0) },
            now1,
            window,
            None,
        ) is Skip,
{
}

} // verus!
