use quadloop::Event;
use quadloop::FrameAction;
use quadloop::FrameState;
use quadloop::Key;
use quadloop::KeyState;
use quadloop::Mode;
use quadloop::Timing;
use quadloop::Vec3Milli;
use quadloop::interpolated_translation;
use quadloop::should_exit;

#[test]
fn translation_at_start() {
    let t = interpolated_translation(0);
    assert_eq!(t, Vec3Milli { x: 5000, y: 0, z: 0 });
}

#[test]
fn translation_at_end() {
    let t = interpolated_translation(1000);
    assert_eq!(t, Vec3Milli { x: -5000, y: 0, z: 0 });
}

#[test]
fn translation_at_midpoint() {
    let t = interpolated_translation(500);
    assert_eq!(t, Vec3Milli { x: 0, y: 0, z: 0 });
}

#[test]
fn translation_follows_line() {
    // x = 5 - 10 * progress, in milliunits, with y and z pinned to zero.
    for p in [1u64, 10, 250, 999, 1500, 100_000] {
        let t = interpolated_translation(p);
        assert_eq!(t.x, 5000 - 10 * p as i64);
        assert_eq!(t.y, 0);
        assert_eq!(t.z, 0);
    }
}

#[test]
fn translation_past_end_keeps_growing() {
    let t = interpolated_translation(2000);
    assert_eq!(t.x, -15000);
}

#[test]
fn close_event_exits() {
    assert!(should_exit(&vec![Event::Closed]));
}

#[test]
fn escape_press_exits() {
    assert!(should_exit(&vec![Event::Keyboard(KeyState::Pressed, Key::Escape)]));
}

#[test]
fn other_key_press_keeps_running() {
    assert!(!should_exit(&vec![Event::Keyboard(KeyState::Pressed, Key::Other)]));
}

#[test]
fn escape_release_keeps_running() {
    assert!(!should_exit(&vec![Event::Keyboard(KeyState::Released, Key::Escape)]));
}

#[test]
fn no_events_keep_running() {
    assert!(!should_exit(&vec![]));
}

#[test]
fn exit_event_found_among_others() {
    let events = vec![
        Event::Other,
        Event::Keyboard(KeyState::Pressed, Key::Other),
        Event::Closed,
        Event::Other,
    ];
    assert!(should_exit(&events));
}

#[test]
fn initial_delta_is_two_milliseconds() {
    let t = Timing::new(100);
    assert_eq!(t.curr_ms, 100);
    assert_eq!(t.dt_ms, 2);
}

#[test]
fn delta_spans_only_the_last_interval() {
    // Timestamps t0 < t1 < t2: after the second update the delta is t2 - t1,
    // not t2 - t0.
    let (t0, t1, t2) = (50u64, 80u64, 170u64);
    let mut t = Timing::new(t0);
    t.tick(t1);
    assert_eq!(t.dt_ms, t1 - t0);
    t.tick(t2);
    assert_eq!(t.dt_ms, t2 - t1);
    assert_eq!(t.curr_ms, t2);
}

#[test]
fn zero_interval_gives_zero_delta() {
    let mut t = Timing::new(7);
    t.tick(7);
    assert_eq!(t.dt_ms, 0);
}

#[test]
fn step_exits_on_close_within_one_iteration() {
    let mut s = FrameState::new(0);
    let a = s.step(&vec![Event::Closed]);
    assert_eq!(a, FrameAction::Exit);
    assert_eq!(s.mode, Mode::Exiting);
}

#[test]
fn step_exits_on_escape_within_one_iteration() {
    let mut s = FrameState::new(0);
    let a = s.step(&vec![Event::Keyboard(KeyState::Pressed, Key::Escape)]);
    assert_eq!(a, FrameAction::Exit);
    assert_eq!(s.mode, Mode::Exiting);
}

#[test]
fn step_keeps_running_on_other_key() {
    let mut s = FrameState::new(0);
    let a = s.step(&vec![Event::Keyboard(KeyState::Pressed, Key::Other)]);
    assert_eq!(s.mode, Mode::Running);
    // The first frame runs with the initial delta of 2 ms, so progress is
    // 2 thousandths and x is 5 - 10 * 0.002 = 4.980 units.
    assert_eq!(s.progress.milli, 2);
    assert_eq!(a, FrameAction::Draw(Vec3Milli { x: 4980, y: 0, z: 0 }));
}

#[test]
fn loop_runs_frames_then_exits() {
    let mut s = FrameState::new(1000);
    let a = s.step(&vec![]);
    assert!(matches!(a, FrameAction::Draw(_)));
    s.end_frame(1016);
    assert_eq!(s.timing.dt_ms, 16);

    let a = s.step(&vec![Event::Other]);
    assert_eq!(s.progress.milli, 2 + 16);
    assert_eq!(a, FrameAction::Draw(Vec3Milli { x: 5000 - 10 * 18, y: 0, z: 0 }));
    s.end_frame(1030);
    assert_eq!(s.timing.dt_ms, 14);

    let a = s.step(&vec![Event::Closed]);
    assert_eq!(a, FrameAction::Exit);
    assert_eq!(s.mode, Mode::Exiting);
    // Exit leaves the animation where it was.
    assert_eq!(s.progress.milli, 18);
}
