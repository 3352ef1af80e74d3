use dutchman::controls::{Control, Controls, Key, KeyAction};

#[test]
fn just_down_lasts_exactly_one_frame() {
    let mut c = Control::new();
    assert!(c.up());
    // Frame 1: the key goes down.
    c.check_just_down();
    c.process_input(KeyAction::Press);
    assert!(c.down());
    assert!(c.just_down());
    // Frame 2: still held, no event.
    c.check_just_down();
    assert!(c.down());
    assert!(!c.just_down());
    // Frame 3: still held, repeat events change nothing.
    c.check_just_down();
    c.process_input(KeyAction::Repeat);
    assert!(c.down());
    assert!(!c.just_down());
}

#[test]
fn just_up_lasts_exactly_one_frame() {
    let mut c = Control::new();
    c.check_just_down();
    c.process_input(KeyAction::Press);
    // Frame 2: release.
    c.check_just_down();
    c.process_input(KeyAction::Release);
    assert!(c.up());
    assert!(c.just_up());
    // Frame 3: no event.
    c.check_just_down();
    assert!(c.up());
    assert!(!c.just_up());
}

#[test]
fn down_stays_stable_between_edges() {
    let mut c = Control::new();
    c.check_just_down();
    c.process_input(KeyAction::Press);
    for _ in 0..5 {
        c.check_just_down();
        assert!(c.down());
        assert!(!c.just_down());
        assert!(!c.just_up());
    }
}

#[test]
fn press_within_one_frame_of_release_keeps_no_edge() {
    let mut c = Control::new();
    c.check_just_down();
    c.process_input(KeyAction::Press);
    c.process_input(KeyAction::Release);
    // Down and up within one frame: ends up, with no pending edges.
    assert!(c.up());
    assert!(!c.just_down());
    assert!(!c.just_up());
}

#[test]
fn keys_route_to_their_controls() {
    let mut cs = Controls::new();
    cs.begin_frame();
    cs.process_key(Key::W, KeyAction::Press);
    cs.process_key(Key::Right, KeyAction::Press);
    cs.process_key(Key::B, KeyAction::Press);
    assert!(cs.up.down());
    assert!(cs.right.down());
    assert!(cs.debug.down());
    assert!(!cs.down.down());
    assert!(!cs.left.down());
}

#[test]
fn unmapped_keys_are_ignored() {
    let mut cs = Controls::new();
    cs.begin_frame();
    cs.process_key(Key::Escape, KeyAction::Press);
    cs.process_key(Key::Other, KeyAction::Press);
    assert!(!cs.up.down());
    assert!(!cs.down.down());
    assert!(!cs.left.down());
    assert!(!cs.right.down());
    assert!(!cs.debug.down());
}
