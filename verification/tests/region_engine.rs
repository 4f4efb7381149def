use lumen::align_to;
use lumen::region::PixelSize;
use lumen::region::ScreenPos;
use lumen::FrameInfo;
use lumen::LiquidGlassEngine;
use lumen::FrameSlot;
use lumen::RegionParams;
use lumen::TickAction;
use lumen::WindowGeometry;

fn overlay_window() -> WindowGeometry {
    WindowGeometry { pos_x: 100, pos_y: 20, width: 300, height: 60 }
}

#[test]
fn region_mapping_places_both_corners() {
    // A 300 x 60 window at (100, 20) over a 1920 x 1080 capture: the sampling
    // rectangle's top-left is capture pixel (100, 20) and its bottom-right is
    // (400, 80), both corners from the same formula.
    let r = RegionParams {
        window_pos: ScreenPos { x: 100, y: 20 },
        window_size: PixelSize { width: 300, height: 60 },
        capture_size: PixelSize { width: 1920, height: 1080 },
    };
    assert_eq!(r.top_left(), (100, 20));
    assert_eq!(r.bottom_right(), (400, 80));
    assert_eq!(r.to_capture_space(0, 0), (100, 20));
    assert_eq!(r.to_capture_space(300, 60), (400, 80));
    assert_eq!(r.to_capture_space(150, 30), (250, 50));
}

#[test]
fn region_mapping_handles_negative_window_positions() {
    let r = RegionParams {
        window_pos: ScreenPos { x: -50, y: -10 },
        window_size: PixelSize { width: 200, height: 40 },
        capture_size: PixelSize { width: 1920, height: 1080 },
    };
    assert_eq!(r.top_left(), (-50, -10));
    assert_eq!(r.bottom_right(), (150, 30));
}

#[test]
fn align_to_rounds_up_to_the_next_multiple() {
    assert_eq!(align_to(10, 4), 12);
    assert_eq!(align_to(8, 4), 8);
    assert_eq!(align_to(0, 4), 0);
    assert_eq!(align_to(1, 256), 256);
    assert_eq!(align_to(257, 256), 512);
    assert_eq!(align_to(5, 1), 5);
}

#[test]
fn a_hundred_frameless_ticks_draw_nothing_while_motion_advances() {
    let mut engine = LiquidGlassEngine::new(0);
    engine.motion.island.set_expanded();
    let start_scale: i64 = engine.motion.island.scale.value;

    let mut draws: u32 = 0;
    for i in 1..=100u64 {
        match engine.tick(i * 16_000, overlay_window(), None) {
            TickAction::Skip => {}
            TickAction::Draw { .. } => draws += 1,
        }
    }
    assert_eq!(draws, 0);
    // Motion still advanced: after 1.6 s the scale spring has left its start
    // and settled close to the expanded target.
    assert_ne!(engine.motion.island.scale.value, start_scale);
    assert!((engine.motion.island.scale.value - 1_250_000).abs() <= 1_000);
    assert_eq!(engine.motion.last_time_us, 1_600_000);
}

#[test]
fn one_delivered_frame_yields_exactly_one_draw() {
    let mut engine = LiquidGlassEngine::new(0);
    let mut slot: FrameSlot<FrameInfo> = FrameSlot::new();

    // The capture callback deposits one frame.
    slot.publish(FrameInfo { width: 1920, height: 1080 });

    // The next tick takes it and orders exactly one composite draw.
    let taken = slot.take();
    assert!(taken.is_some());
    match engine.tick(16_000, overlay_window(), taken) {
        TickAction::Draw { island, region } => {
            assert_eq!(region.capture_size, PixelSize { width: 1920, height: 1080 });
            assert_eq!(region.window_pos, ScreenPos { x: 100, y: 20 });
            assert_eq!(region.window_size, PixelSize { width: 300, height: 60 });
            // The draw carries the spring values as they stand after this
            // tick's motion update.
            assert_eq!(island.scale, engine.motion.island.scale.value);
            assert_eq!(island.radius, engine.motion.island.radius.value);
            assert_eq!(island.glow_power, engine.motion.island.glow.value);
            assert_eq!(island.shadow_power, engine.motion.island.shadow.value);
        }
        TickAction::Skip => panic!("a delivered frame must be drawn"),
    }

    // The slot is empty again: the following tick skips.
    let taken = slot.take();
    assert!(taken.is_none());
    assert!(matches!(engine.tick(32_000, overlay_window(), taken), TickAction::Skip));
}

#[test]
fn the_region_follows_the_window_each_tick() {
    let mut engine = LiquidGlassEngine::new(0);
    let frame = FrameInfo { width: 2560, height: 1440 };

    let moved = WindowGeometry { pos_x: 700, pos_y: 5, width: 320, height: 64 };
    match engine.tick(16_000, moved, Some(frame)) {
        TickAction::Draw { region, .. } => {
            assert_eq!(region.window_pos, ScreenPos { x: 700, y: 5 });
            assert_eq!(region.window_size, PixelSize { width: 320, height: 64 });
            assert_eq!(region.capture_size, PixelSize { width: 2560, height: 1440 });
        }
        TickAction::Skip => panic!("a delivered frame must be drawn"),
    }
}
