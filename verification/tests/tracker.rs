use activity_tracker::controller::Controller;
use activity_tracker::controller::TrackerError;
use activity_tracker::event::InputEvent;
use activity_tracker::event::event_qualifies;
use activity_tracker::state::idle_exceeded;

#[test]
fn start_reports_inactive() {
    let mut c = Controller::new();
    assert_eq!(c.start(5, 0), Ok(()));
    assert_eq!(c.is_active(), Ok(false));
}

#[test]
fn start_reports_inactive_for_other_timeouts() {
    for timeout in [1u64, 2, 10, 3600, u64::MAX] {
        let mut c = Controller::new();
        assert_eq!(c.start(timeout, 100), Ok(()));
        assert_eq!(c.is_active(), Ok(false));
    }
}

#[test]
fn key_press_activates() {
    let mut c = Controller::new();
    assert_eq!(c.start(5, 0), Ok(()));
    c.note_event(&InputEvent::KeyPress, 0);
    assert_eq!(c.is_active(), Ok(true));
}

#[test]
fn mouse_move_and_button_press_activate() {
    let mut c = Controller::new();
    assert_eq!(c.start(5, 0), Ok(()));
    c.note_event(&InputEvent::MouseMove, 0);
    assert_eq!(c.is_active(), Ok(true));

    let mut c2 = Controller::new();
    assert_eq!(c2.start(5, 0), Ok(()));
    c2.note_event(&InputEvent::ButtonPress, 0);
    assert_eq!(c2.is_active(), Ok(true));
}

#[test]
fn releases_and_wheel_do_not_activate() {
    let mut c = Controller::new();
    assert_eq!(c.start(5, 0), Ok(()));
    c.note_event(&InputEvent::KeyRelease, 1);
    c.note_event(&InputEvent::ButtonRelease, 2);
    c.note_event(&InputEvent::Wheel, 3);
    assert_eq!(c.is_active(), Ok(false));
}

#[test]
fn activity_sustained_by_continuing_events() {
    let mut c = Controller::new();
    assert_eq!(c.start(5, 0), Ok(()));
    c.note_event(&InputEvent::KeyPress, 0);
    let mut now: u64 = 0;
    while now < 20 {
        now += 1;
        assert!(c.tick(now));
        assert_eq!(c.is_active(), Ok(true));
        if now % 4 == 0 {
            c.note_event(&InputEvent::MouseMove, now);
        }
    }
}

#[test]
fn idle_after_timeout_elapses() {
    let mut c = Controller::new();
    assert_eq!(c.start(5, 0), Ok(()));
    c.note_event(&InputEvent::KeyPress, 0);
    for now in 1u64..=5 {
        assert!(c.tick(now));
        assert_eq!(c.is_active(), Ok(true));
    }
    assert!(c.tick(6));
    assert_eq!(c.is_active(), Ok(false));
}

#[test]
fn second_start_rejected_and_first_session_kept() {
    let mut c = Controller::new();
    assert_eq!(c.start(5, 0), Ok(()));
    assert_eq!(c.start(99, 0), Err(TrackerError::AlreadyRunning));
    assert_eq!(c.is_active(), Ok(false));
    // The first session's five-second timeout still governs the watchdog.
    c.note_event(&InputEvent::KeyPress, 0);
    assert!(c.tick(6));
    assert_eq!(c.is_active(), Ok(false));
}

#[test]
fn query_without_start_fails() {
    let c = Controller::new();
    assert_eq!(c.is_active(), Err(TrackerError::NotRunning));
}

#[test]
fn stop_is_idempotent_and_silent() {
    let mut c = Controller::new();
    c.stop();
    c.stop();
    assert_eq!(c.is_active(), Err(TrackerError::NotRunning));

    assert_eq!(c.start(5, 0), Ok(()));
    c.stop();
    assert_eq!(c.is_active(), Err(TrackerError::NotRunning));
    c.stop();
    assert_eq!(c.is_active(), Err(TrackerError::NotRunning));
}

#[test]
fn start_again_after_stop() {
    let mut c = Controller::new();
    assert_eq!(c.start(5, 0), Ok(()));
    c.stop();
    assert_eq!(c.start(2, 10), Ok(()));
    assert_eq!(c.is_active(), Ok(false));
    c.note_event(&InputEvent::ButtonPress, 10);
    assert!(c.tick(12));
    assert_eq!(c.is_active(), Ok(true));
    assert!(c.tick(13));
    assert_eq!(c.is_active(), Ok(false));
}

#[test]
fn tick_reports_loop_end_only_without_tracker() {
    let mut c = Controller::new();
    assert!(!c.tick(0));
    assert_eq!(c.start(5, 0), Ok(()));
    assert!(c.tick(1));
    c.stop();
    assert!(!c.tick(2));
}

#[test]
fn scenario_five_second_timeout() {
    let mut c = Controller::new();
    assert_eq!(c.start(5, 0), Ok(()));
    c.note_event(&InputEvent::KeyPress, 0);
    assert!(c.tick(1));
    assert_eq!(c.is_active(), Ok(true));
    for now in 2u64..=7 {
        assert!(c.tick(now));
    }
    assert_eq!(c.is_active(), Ok(false));
}

#[test]
fn event_qualification_rule() {
    assert!(event_qualifies(&InputEvent::KeyPress));
    assert!(event_qualifies(&InputEvent::MouseMove));
    assert!(event_qualifies(&InputEvent::ButtonPress));
    assert!(!event_qualifies(&InputEvent::KeyRelease));
    assert!(!event_qualifies(&InputEvent::ButtonRelease));
    assert!(!event_qualifies(&InputEvent::Wheel));
}

#[test]
fn idle_criterion_boundary() {
    assert!(!idle_exceeded(0, 0, 5));
    assert!(!idle_exceeded(0, 5, 5));
    assert!(idle_exceeded(0, 6, 5));
    assert!(!idle_exceeded(10, 15, 5));
    assert!(idle_exceeded(10, 16, 5));
}
