use dwm_status::{Action, Event, NotificationEvent, Relay, RenderLoop, SignalKind, StopReason, CADENCE_MS};

fn note(summary: &str, hold_ms: u64) -> NotificationEvent {
    NotificationEvent { summary: summary.to_string(), hold_ms }
}

#[test]
fn notification_is_shown_before_the_metrics() {
    let mut l = RenderLoop::new();
    assert_eq!(l.step(Event::Done), Action::PollRelay);
    let shown = l.step(Event::Polled(Some(note("hello \"you\"", 2500))));
    assert_eq!(shown, Action::ShowNotification("\"hello \\\"you\\\"\"".to_string()));
    assert_eq!(l.step(Event::Done), Action::Sleep(2500));
    assert_eq!(l.step(Event::Done), Action::ShowStatus);
    assert_eq!(l.step(Event::Done), Action::Sleep(CADENCE_MS));
    assert_eq!(l.step(Event::Done), Action::PollRelay);
}

#[test]
fn empty_relay_renders_metrics_once_per_cadence() {
    let mut l = RenderLoop::new();
    assert_eq!(l.step(Event::Done), Action::PollRelay);
    let mut renders = 0;
    for _ in 0..3 {
        assert_eq!(l.step(Event::Polled(None)), Action::ShowStatus);
        renders += 1;
        assert_eq!(l.step(Event::Done), Action::Sleep(1000));
        assert_eq!(l.step(Event::Done), Action::PollRelay);
    }
    assert_eq!(renders, 3);
}

#[test]
fn signal_shows_one_farewell_then_exits() {
    let mut l = RenderLoop::new();
    assert_eq!(l.step(Event::Done), Action::PollRelay);
    assert_eq!(l.step(Event::Polled(None)), Action::ShowStatus);
    assert_eq!(
        l.step(Event::Stop(StopReason::Signal(SignalKind::Int))),
        Action::ShowFarewell("rust-dwm-status stopped with signal INT.".to_string())
    );
    assert_eq!(l.step(Event::Done), Action::Exit);
    assert_eq!(l.step(Event::Stop(StopReason::Signal(SignalKind::Term))), Action::Exit);
    assert_eq!(l.step(Event::Polled(Some(note("late", 10)))), Action::Exit);
    assert_eq!(l.step(Event::Done), Action::Exit);
}

#[test]
fn term_signal_during_a_notification() {
    let mut l = RenderLoop::new();
    l.step(Event::Done);
    l.step(Event::Polled(Some(note("x", 10))));
    assert_eq!(
        l.step(Event::Stop(StopReason::Signal(SignalKind::Term))),
        Action::ShowFarewell("rust-dwm-status stopped with signal TERM.".to_string())
    );
    assert_eq!(l.step(Event::Done), Action::Exit);
}

#[test]
fn finished_work_says_done() {
    let mut l = RenderLoop::new();
    assert_eq!(
        l.step(Event::Stop(StopReason::Finished)),
        Action::ShowFarewell("rust-dwm-status: done.".to_string())
    );
}

#[test]
fn relay_keeps_the_latest_event() {
    let mut r = Relay::new();
    assert!(r.take().is_none());
    r.offer(note("first", 1));
    r.offer(note("second", 2));
    let got = r.take().unwrap();
    assert_eq!(got.summary, "second");
    assert_eq!(got.hold_ms, 2);
    assert!(r.take().is_none());
}

#[test]
fn bus_expiry_becomes_a_hold_time() {
    assert_eq!(NotificationEvent::from_bus("a".to_string(), 5000).hold_ms, 5000);
    assert_eq!(NotificationEvent::from_bus("a".to_string(), 0).hold_ms, 0);
    assert_eq!(NotificationEvent::from_bus("a".to_string(), -1).hold_ms, 0);
    assert_eq!(NotificationEvent::from_bus("b".to_string(), i32::MAX).hold_ms, 2147483647);
}
