//! Tests for the frame clock, the input tracker and the event dispatcher.

use flycam::clock::FrameClock;
use flycam::input::{ButtonAction, InputState, KeyState, KEY_F11, KEY_W};
use flycam::main_loop::{AppNote, EventLoop, Note, RawEvent, UiNote};

#[test]
fn clock_accumulates_wall_clock_deltas_at_timescale_one() {
    let mut c = FrameClock::new(0);
    c.tick(16);
    assert_eq!(c.dt, 16);
    assert_eq!(c.time, 16);
    c.tick(48);
    assert_eq!(c.dt, 32);
    assert_eq!(c.time, 48);
    c.tick(48);
    assert_eq!(c.dt, 0);
    assert_eq!(c.time, 48);
    assert_eq!(c.now, 48);
}

#[test]
fn clock_freezes_at_timescale_zero() {
    let mut c = FrameClock::new(0);
    c.set_timescale(0);
    c.tick(1000);
    c.tick(50000);
    assert_eq!(c.dt, 0);
    assert_eq!(c.time, 0);
    assert_eq!(c.now, 50000);
}

#[test]
fn clock_scales_deltas_by_fractional_timescale() {
    let mut c = FrameClock::new(0);
    c.set_timescale(500);
    c.tick(100);
    assert_eq!(c.dt, 50);
    assert_eq!(c.time, 50);
}

#[test]
fn key_reads_just_pressed_for_exactly_one_tick() {
    let mut inp = InputState::new();
    assert_eq!(inp.query_key(KEY_W), KeyState::Unpressed);
    inp.on_key_event(KEY_W, ButtonAction::Press);
    assert_eq!(inp.query_key(KEY_W), KeyState::JustPressed);
    assert!(inp.query_just_pressed(KEY_W));
    inp.begin_tick();
    assert_eq!(inp.query_key(KEY_W), KeyState::Pressed);
    assert!(!inp.query_just_pressed(KEY_W));
    inp.begin_tick();
    assert_eq!(inp.query_key(KEY_W), KeyState::Pressed);
    inp.on_key_event(KEY_W, ButtonAction::Release);
    assert_eq!(inp.query_key(KEY_W), KeyState::JustReleased);
    inp.begin_tick();
    assert_eq!(inp.query_key(KEY_W), KeyState::Unpressed);
}

#[test]
fn repeat_press_is_a_no_op_on_a_held_key() {
    let mut inp = InputState::new();
    inp.on_key_event(KEY_W, ButtonAction::Press);
    inp.begin_tick();
    inp.on_key_event(KEY_W, ButtonAction::Press);
    assert_eq!(inp.query_key(KEY_W), KeyState::Pressed);
    inp.on_key_event(KEY_W, ButtonAction::Release);
    inp.on_key_event(KEY_W, ButtonAction::Release);
    assert_eq!(inp.query_key(KEY_W), KeyState::JustReleased);
}

#[test]
fn scroll_accumulates_within_a_tick_and_resets_at_the_next() {
    let mut inp = InputState::new();
    inp.on_scroll(100, -250);
    inp.on_scroll(40, 50);
    assert_eq!(inp.scroll(), (140, -200));
    inp.begin_tick();
    assert_eq!(inp.scroll(), (0, 0));
}

#[test]
fn cursor_position_tracks_the_last_move() {
    let mut inp = InputState::new();
    inp.on_cursor_move(12000, 34000);
    inp.on_cursor_move(56000, 78000);
    assert_eq!(inp.cursor(), (56000, 78000));
}

#[test]
fn dispatcher_routes_events_in_arrival_order() {
    let mut el = EventLoop::new(800, 800);
    let events = vec![
        RawEvent::Key(KEY_W, ButtonAction::Press),
        RawEvent::CursorMove(10, 20),
        RawEvent::MouseButton(1, ButtonAction::Press),
        RawEvent::Scroll(3, -4),
        RawEvent::FramebufferResize(640, 480),
    ];
    let notes = el.update(16, &events);
    assert_eq!(
        notes,
        vec![
            Note::App(AppNote::KeyPressed(KEY_W)),
            Note::App(AppNote::MouseMoved(10, 20)),
            Note::Ui(UiNote::MouseMoved(10, 20)),
            Note::Ui(UiNote::MouseClick(1, ButtonAction::Press)),
            Note::App(AppNote::LmbPressed),
            Note::App(AppNote::ScrollChanged(3, -4)),
            Note::Ui(UiNote::Scroll(3, -4)),
            Note::App(AppNote::WindowResized(640, 480)),
        ]
    );
    assert!(el.is_key_down(KEY_W));
    assert_eq!(el.size(), (640, 480));
    assert!(!el.close_requested);
}

#[test]
fn escape_press_raises_the_close_flag_and_is_not_forwarded() {
    let mut el = EventLoop::new(800, 800);
    let events = vec![RawEvent::Key(256, ButtonAction::Press)];
    let notes = el.update(16, &events);
    assert!(notes.is_empty());
    assert!(el.close_requested);
    assert!(!el.is_key_down(256));
}

#[test]
fn escape_release_is_forwarded_like_any_key() {
    let mut el = EventLoop::new(800, 800);
    let notes = el.update(16, &vec![RawEvent::Key(256, ButtonAction::Release)]);
    assert_eq!(notes, vec![Note::App(AppNote::KeyReleased(256))]);
    assert!(!el.close_requested);
}

#[test]
fn middle_mouse_button_reaches_only_the_overlay() {
    let mut el = EventLoop::new(800, 800);
    let notes = el.update(16, &vec![RawEvent::MouseButton(3, ButtonAction::Press)]);
    assert_eq!(notes, vec![Note::Ui(UiNote::MouseClick(3, ButtonAction::Press))]);
}

#[test]
fn right_button_release_reaches_overlay_then_application() {
    let mut el = EventLoop::new(800, 800);
    let notes = el.update(16, &vec![RawEvent::MouseButton(2, ButtonAction::Release)]);
    assert_eq!(
        notes,
        vec![
            Note::Ui(UiNote::MouseClick(2, ButtonAction::Release)),
            Note::App(AppNote::RmbReleased),
        ]
    );
}

#[test]
fn scroll_reported_in_a_tick_equals_the_sum_of_its_raw_events() {
    let mut el = EventLoop::new(800, 800);
    let events = vec![
        RawEvent::Scroll(5, 7),
        RawEvent::Key(KEY_W, ButtonAction::Press),
        RawEvent::Scroll(-2, 10),
    ];
    let notes = el.update(16, &events);
    let reported: i64 = notes
        .iter()
        .map(|n| match n {
            Note::App(AppNote::ScrollChanged(_, dy)) => *dy,
            _ => 0,
        })
        .sum();
    assert_eq!(reported, 17);
    let mut sx: i64 = 0;
    for n in &notes {
        if let Note::App(AppNote::ScrollChanged(dx, _)) = n {
            sx += dx;
        }
    }
    assert_eq!(sx, 3);
    // the tracker holds the same sums, and the next tick starts over at zero
    let notes2 = el.update(32, &vec![]);
    assert!(notes2.is_empty());
}

#[test]
fn fullscreen_toggle_fires_only_on_the_just_pressed_tick() {
    let mut el = EventLoop::new(800, 800);
    el.update(16, &vec![RawEvent::Key(KEY_F11, ButtonAction::Press)]);
    assert_eq!(el.set_fullscreen(&false), Some(true));
    assert_eq!(el.set_fullscreen(&true), Some(false));
    el.update(32, &vec![]);
    assert_eq!(el.set_fullscreen(&false), None);
    assert!(el.is_key_down(KEY_F11));
}

#[test]
fn dispatcher_advances_its_clock_each_tick() {
    let mut el = EventLoop::new(800, 800);
    el.update(10, &vec![]);
    el.update(25, &vec![]);
    assert_eq!(el.clock.dt, 15);
    assert_eq!(el.clock.time, 25);
    el.clock.set_timescale(0);
    el.update(100, &vec![]);
    assert_eq!(el.clock.time, 25);
}

#[test]
fn is_key_up_mirrors_is_key_down() {
    let mut el = EventLoop::new(800, 800);
    assert!(el.is_key_up(KEY_W));
    el.update(16, &vec![RawEvent::Key(KEY_W, ButtonAction::Press)]);
    assert!(!el.is_key_up(KEY_W));
    assert!(el.is_key_down(KEY_W));
}
