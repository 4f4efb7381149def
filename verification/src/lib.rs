//! Verified core of a translucent "island" desktop overlay.
//!
//! The library holds the logic that drives the overlay: a fixed-point
//! critically-tuned spring integrator and the motion driver built on it, the
//! single-slot frame mailbox that hands captured desktop frames from the
//! capture callback to the render tick, the mapping from window geometry to
//! capture-texture coordinates, the per-tick orchestration that decides when a
//! composite draw happens, and the mode arbiter that turns source activity
//! into island states.
//!
//! Scalar motion quantities are fixed-point integers in micro-units (one unit
//! is `MICROS` micro-units) and times are in microseconds, so every update is
//! an exact integer computation with a proved contract. The GPU passes, the
//! OS capture session and the window system live outside the library; they
//! consume the plain values (targets, tick actions, region rectangles) that
//! the verified functions produce.

pub mod engine;
pub mod events;
pub mod mailbox;
pub mod media;
pub mod motion;
pub mod region;
pub mod sources;
pub mod spring;
pub mod stages;
pub mod state;
pub mod util;

pub use engine::FrameInfo;
pub use engine::IslandParams;
pub use engine::LiquidGlassEngine;
pub use engine::TickAction;
pub use engine::WindowGeometry;
pub use events::CoreEvent;
pub use mailbox::FrameSlot;
pub use media::MediaState;
pub use media::MediaType;
pub use media::PlaybackState;
pub use motion::IslandMotionState;
pub use motion::MotionDriver;
pub use region::PixelSize;
pub use region::RegionParams;
pub use region::ScreenPos;
pub use sources::CameraWatch;
pub use sources::MediaWatch;
pub use sources::MicSessionWatch;
pub use spring::Spring;
pub use spring::SpringValue;
pub use stages::BlurKernel;
pub use stages::BlurPass;
pub use stages::BlurTarget;
pub use state::ActiveMode;
pub use state::ActivityKind;
pub use state::IslandCore;
pub use state::IslandState;
pub use state::IslandVisualMode;
pub use state::PrivacyKind;
pub use state::PulseReason;
pub use util::align_to;
