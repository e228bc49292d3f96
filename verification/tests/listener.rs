use mouse_listener::events::{InputEvent, LoggedEvent, MouseButton};
use mouse_listener::state::MouseState;
use mouse_listener::tracker::{MouseTracker, NO_DATA_COORD};

fn mv(x: f64, y: f64) -> InputEvent {
    InputEvent::MouseMove {
        x: x.to_bits(),
        y: y.to_bits(),
    }
}

fn press_left() -> InputEvent {
    InputEvent::ButtonPress {
        button: MouseButton::Left,
    }
}

fn release_left() -> InputEvent {
    InputEvent::ButtonRelease {
        button: MouseButton::Left,
    }
}

fn decoded(pair: (u64, u64)) -> (f64, f64) {
    (f64::from_bits(pair.0), f64::from_bits(pair.1))
}

fn now_bits() -> u64 {
    std::time::SystemTime::now()
        .duration_since(std::time::UNIX_EPOCH)
        .unwrap()
        .as_secs_f64()
        .to_bits()
}

#[test]
fn getters_before_start_return_sentinel() {
    let tracker = MouseTracker::new();
    assert_eq!(decoded(tracker.get_mouse_position()), (-1.0, -1.0));
    assert_eq!(decoded(tracker.get_last_click_position()), (-1.0, -1.0));
    assert_eq!(NO_DATA_COORD, (-1.0f64).to_bits());
}

#[test]
fn last_move_wins() {
    let mut tracker = MouseTracker::new();
    tracker.start();
    for i in 0..100 {
        let r = tracker.process_event(mv(i as f64, (2 * i) as f64), now_bits());
        assert!(r.is_none());
    }
    let r = tracker.process_event(mv(3.5, -7.25), now_bits());
    assert!(r.is_none());
    assert_eq!(decoded(tracker.get_mouse_position()), (3.5, -7.25));
    // moves never touch the click position
    assert_eq!(decoded(tracker.get_last_click_position()), (0.0, 0.0));
}

#[test]
fn click_uses_last_move_not_button_coords() {
    let mut tracker = MouseTracker::new();
    tracker.start();
    tracker.process_event(mv(100.0, 200.0), now_bits());
    let record = tracker.process_event(press_left(), now_bits()).unwrap();
    assert_eq!(f64::from_bits(record.x), 100.0);
    assert_eq!(f64::from_bits(record.y), 200.0);
    assert_eq!(decoded(tracker.get_last_click_position()), (100.0, 200.0));
}

#[test]
fn press_release_logs_twice_same_coords() {
    let mut tracker = MouseTracker::new();
    tracker.start();
    tracker.process_event(mv(8.0, 9.0), now_bits());
    let first = tracker.process_event(press_left(), now_bits()).unwrap();
    let second = tracker.process_event(release_left(), now_bits()).unwrap();
    assert_eq!((first.x, first.y), (second.x, second.y));
    assert_eq!(f64::from_bits(first.x), 8.0);
    assert_eq!(f64::from_bits(first.y), 9.0);
    let t1 = f64::from_bits(first.timestamp);
    let t2 = f64::from_bits(second.timestamp);
    assert!(t2 >= t1);
}

#[test]
fn scenario_move_move_press() {
    let before = f64::from_bits(now_bits());
    let mut tracker = MouseTracker::new();
    tracker.start();
    assert!(tracker.process_event(mv(10.0, 20.0), now_bits()).is_none());
    assert!(tracker.process_event(mv(15.0, 25.0), now_bits()).is_none());
    let record = tracker.process_event(press_left(), now_bits()).unwrap();
    let after = f64::from_bits(now_bits());

    assert_eq!(decoded(tracker.get_mouse_position()), (15.0, 25.0));
    assert_eq!(decoded(tracker.get_last_click_position()), (15.0, 25.0));

    let line = render(&record);
    let value: serde_json::Value = serde_json::from_str(&line).unwrap();
    assert_eq!(value["event_type"], "MouseClick");
    assert_eq!(value["x"].as_f64().unwrap(), 15.0);
    assert_eq!(value["y"].as_f64().unwrap(), 25.0);
    let t = value["timestamp"].as_f64().unwrap();
    assert!(before <= t && t <= after);
}

#[test]
fn scenario_click_without_move() {
    let mut tracker = MouseTracker::new();
    tracker.start();
    let first = tracker.process_event(press_left(), now_bits()).unwrap();
    let second = tracker.process_event(release_left(), now_bits()).unwrap();
    assert_eq!(f64::from_bits(first.x), 0.0);
    assert_eq!(f64::from_bits(first.y), 0.0);
    assert_eq!(f64::from_bits(second.x), 0.0);
    assert_eq!(f64::from_bits(second.y), 0.0);
}

#[test]
fn other_events_are_discarded() {
    let mut tracker = MouseTracker::new();
    tracker.start();
    tracker.process_event(mv(1.0, 2.0), now_bits());
    for event in [
        InputEvent::ButtonPress {
            button: MouseButton::Right,
        },
        InputEvent::ButtonRelease {
            button: MouseButton::Middle,
        },
        InputEvent::ButtonPress {
            button: MouseButton::Other,
        },
        InputEvent::Discarded,
    ] {
        assert!(tracker.process_event(event, now_bits()).is_none());
    }
    assert_eq!(decoded(tracker.get_mouse_position()), (1.0, 2.0));
    assert_eq!(decoded(tracker.get_last_click_position()), (0.0, 0.0));
}

#[test]
fn events_before_start_are_dropped() {
    let mut tracker = MouseTracker::new();
    assert!(tracker.process_event(mv(4.0, 5.0), now_bits()).is_none());
    assert!(tracker.process_event(press_left(), now_bits()).is_none());
    assert_eq!(decoded(tracker.get_mouse_position()), (-1.0, -1.0));
}

#[test]
fn second_start_installs_fresh_state() {
    let mut tracker = MouseTracker::new();
    tracker.start();
    tracker.process_event(mv(50.0, 60.0), now_bits());
    tracker.start();
    assert_eq!(decoded(tracker.get_mouse_position()), (0.0, 0.0));
    assert_eq!(decoded(tracker.get_last_click_position()), (0.0, 0.0));
}

#[test]
fn state_record_updates_independently() {
    let mut state = MouseState::new();
    state.update_move(1.5f64.to_bits(), 2.5f64.to_bits());
    assert_eq!(f64::from_bits(state.get_last_move().x), 1.5);
    assert_eq!(f64::from_bits(state.get_last_move().y), 2.5);
    assert_eq!(f64::from_bits(state.get_last_click().x), 0.0);
    state.update_click(9.0f64.to_bits(), 8.0f64.to_bits());
    assert_eq!(f64::from_bits(state.get_last_click().x), 9.0);
    assert_eq!(f64::from_bits(state.get_last_click().y), 8.0);
    assert_eq!(f64::from_bits(state.get_last_move().x), 1.5);
}

/// Format a record's fields the way the process boundary does and frame
/// them with the library.
fn render(record: &LoggedEvent) -> String {
    let x = serde_json::to_string(&f64::from_bits(record.x)).unwrap();
    let y = serde_json::to_string(&f64::from_bits(record.y)).unwrap();
    let t = serde_json::to_string(&f64::from_bits(record.timestamp)).unwrap();
    mouse_listener::logline::render_click_line(&x, &y, &t).unwrap()
}
