use lumen::FrameSlot;

#[test]
fn take_on_empty_slot_is_none() {
    let mut slot: FrameSlot<u64> = FrameSlot::new();
    assert!(!slot.is_occupied());
    assert_eq!(slot.take(), None);
}

#[test]
fn publish_then_take_round_trips() {
    let mut slot: FrameSlot<u64> = FrameSlot::new();
    slot.publish(7);
    assert!(slot.is_occupied());
    assert_eq!(slot.take(), Some(7));
    assert!(!slot.is_occupied());
    assert_eq!(slot.take(), None);
}

#[test]
fn newest_publish_overwrites_an_untaken_frame() {
    let mut slot: FrameSlot<u64> = FrameSlot::new();
    slot.publish(7);
    slot.publish(9);
    assert_eq!(slot.take(), Some(9));
    assert_eq!(slot.take(), None);
}

#[test]
fn after_n_rapid_writes_one_take_yields_the_last() {
    // Tag frames with sequential integers; after N writes and one take the
    // result is frame N-1 and every earlier frame is unobservable.
    let n: u64 = 5;
    let mut slot: FrameSlot<u64> = FrameSlot::new();
    for i in 0..n {
        slot.publish(i);
    }
    assert_eq!(slot.take(), Some(n - 1));
    assert_eq!(slot.take(), None);
}

#[test]
fn slot_carries_owned_frames() {
    let mut slot: FrameSlot<String> = FrameSlot::new();
    slot.publish(String::from("first"));
    slot.publish(String::from("second"));
    assert_eq!(slot.take(), Some(String::from("second")));
}
