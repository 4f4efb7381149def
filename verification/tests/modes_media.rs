use lumen::media::clock_ticks_to_ms;
use lumen::media::playback_of;
use lumen::motion::EXPANDED_SCALE;
use lumen::motion::IDLE_SCALE;
use lumen::state::apply_visual;
use lumen::state::visual_for;
use lumen::ActiveMode;
use lumen::ActivityKind;
use lumen::IslandCore;
use lumen::IslandMotionState;
use lumen::IslandState;
use lumen::IslandVisualMode;
use lumen::MediaState;
use lumen::MediaType;
use lumen::PlaybackState;
use lumen::PrivacyKind;
use lumen::PulseReason;

#[test]
fn a_new_core_is_dormant_and_idle() {
    let core = IslandCore::new();
    assert!(matches!(core.state, IslandState::IdleDormant));
    assert_eq!(core.current_mode, ActiveMode::Idle);
    assert_eq!(core.cooldown_frames, 0);
}

#[test]
fn a_higher_priority_mode_takes_over_at_once() {
    let mut core = IslandCore::new();
    let event = core.update_mode(ActiveMode::Media);
    assert!(matches!(event, Some(IslandState::ActiveWidget(ActivityKind::Media))));
    assert_eq!(core.current_mode, ActiveMode::Media);

    let event = core.update_mode(ActiveMode::Mic);
    assert!(matches!(event, Some(IslandState::PrivacyIndicator(PrivacyKind::Microphone))));

    let event = core.update_mode(ActiveMode::Camera);
    assert!(matches!(event, Some(IslandState::PrivacyIndicator(PrivacyKind::Camera))));
    assert_eq!(core.current_mode, ActiveMode::Camera);
}

#[test]
fn repeating_the_active_mode_announces_nothing() {
    let mut core = IslandCore::new();
    assert!(core.update_mode(ActiveMode::Media).is_some());
    assert!(core.update_mode(ActiveMode::Media).is_none());
    assert_eq!(core.current_mode, ActiveMode::Media);
}

#[test]
fn a_step_down_waits_out_the_cooldown() {
    let mut core = IslandCore::new();
    assert!(core.update_mode(ActiveMode::Camera).is_some());

    // Eleven consecutive lower-priority requests are absorbed.
    for i in 1..=11u32 {
        let event = core.update_mode(ActiveMode::Idle);
        assert!(event.is_none(), "request {} must be absorbed", i);
        assert_eq!(core.current_mode, ActiveMode::Camera);
        assert_eq!(core.cooldown_frames, i);
    }

    // The twelfth request steps the mode down and resets the cooldown.
    let event = core.update_mode(ActiveMode::Idle);
    assert!(matches!(event, Some(IslandState::IdleDormant)));
    assert_eq!(core.current_mode, ActiveMode::Idle);
    assert_eq!(core.cooldown_frames, 0);
}

#[test]
fn an_upgrade_does_not_touch_the_cooldown() {
    let mut core = IslandCore::new();
    assert!(core.update_mode(ActiveMode::Mic).is_some());
    assert!(core.update_mode(ActiveMode::Idle).is_none());
    assert_eq!(core.cooldown_frames, 1);

    // A higher-priority mode interrupts the step-down; the absorbed count
    // stays where it was.
    assert!(core.update_mode(ActiveMode::Camera).is_some());
    assert_eq!(core.cooldown_frames, 1);
}

#[test]
fn each_state_maps_to_its_visual_register() {
    assert_eq!(visual_for(&IslandState::IdleDormant), IslandVisualMode::Dormant);
    assert_eq!(
        visual_for(&IslandState::BriefPulse(PulseReason::Other(String::from("dock")))),
        IslandVisualMode::Pulse
    );
    assert_eq!(
        visual_for(&IslandState::ActiveWidget(ActivityKind::Timer)),
        IslandVisualMode::Activity
    );
    assert_eq!(
        visual_for(&IslandState::PrivacyIndicator(PrivacyKind::ScreenCapture)),
        IslandVisualMode::Privacy
    );
    assert_eq!(visual_for(&IslandState::ControlCenter), IslandVisualMode::Activity);
}

#[test]
fn visual_registers_retarget_the_springs() {
    let mut island = IslandMotionState::new();
    apply_visual(&mut island, IslandVisualMode::Privacy);
    assert_eq!(island.scale.target, EXPANDED_SCALE);

    apply_visual(&mut island, IslandVisualMode::Dormant);
    assert_eq!(island.scale.target, IDLE_SCALE);

    apply_visual(&mut island, IslandVisualMode::Pulse);
    assert_eq!(island.scale.target, EXPANDED_SCALE);
}

#[test]
fn playback_state_follows_the_playing_flag() {
    assert!(matches!(playback_of(true), PlaybackState::Playing));
    assert!(matches!(playback_of(false), PlaybackState::Paused));
}

#[test]
fn session_clock_ticks_convert_to_whole_milliseconds() {
    assert_eq!(clock_ticks_to_ms(0), 0);
    assert_eq!(clock_ticks_to_ms(10_000), 1);
    assert_eq!(clock_ticks_to_ms(12_345_678), 1_234);
    // A three-and-a-half-minute track in session-clock ticks.
    assert_eq!(clock_ticks_to_ms(2_100_000_000), 210_000);
}

#[test]
fn media_snapshot_holds_its_fields() {
    let state = MediaState {
        app_name: Some(String::from("player")),
        app_id: Some(String::from("player.app")),
        app_icon: None,
        title: Some(String::from("song")),
        artist: Some(String::from("artist")),
        album: None,
        duration_ms: Some(210_000),
        position_ms: Some(30_000),
        playing: true,
        playback_state: playback_of(true),
        media_type: MediaType::Unknown,
        artwork: Some(vec![1u8, 2, 3]),
    };
    let copy = state.clone();
    assert_eq!(copy.title.as_deref(), Some("song"));
    assert_eq!(copy.duration_ms, Some(210_000));
    assert!(copy.playing);
    assert!(matches!(copy.playback_state, PlaybackState::Playing));
    assert_eq!(copy.artwork, Some(vec![1u8, 2, 3]));
}
