use napcat::desktop::{refresh_interval_ms, DesktopControl, DesktopError, DesktopSnapshot};

#[test]
fn runtime_default_snapshot_is_empty_and_status_line_renders() {
    let snapshot = DesktopSnapshot::empty("desktop");

    assert_eq!(snapshot.total_events, 0);
    assert_eq!(snapshot.as_status_line(), "desktop | events=0");
}

#[test]
fn runtime_receives_protocol_events_and_stops() {
    let mut control = DesktopControl::new();
    let mut snapshot = DesktopSnapshot::empty("desktop");
    control.start().unwrap();

    snapshot.record_event(String::from("protocol"), String::from("message"), 1_000);
    assert_eq!(snapshot.total_events, 1);
    assert_eq!(snapshot.last_source.as_deref(), Some("protocol"));

    control.request_stop().unwrap();
    control.complete_stop(true).unwrap();
    assert!(matches!(control.request_stop(), Err(DesktopError::AlreadyStopped)));
}

#[test]
fn second_start_is_refused_and_restart_after_stop_works() {
    let mut control = DesktopControl::new();
    control.start().unwrap();
    assert_eq!(control.start(), Err(DesktopError::AlreadyRunning));
    control.request_stop().unwrap();
    assert_eq!(control.complete_stop(false), Err(DesktopError::ControlClosed));
    control.complete_stop(true).unwrap();
    assert!(control.start().is_ok());
}

#[test]
fn status_line_names_the_latest_event() {
    let mut snapshot = DesktopSnapshot::empty("dash");
    snapshot.record_event(String::from("api"), String::from("protocol-event"), 5);
    snapshot.record_event(String::from("protocol"), String::from("event"), 6);
    assert_eq!(snapshot.as_status_line(), "dash | events=2 last=protocol event");
    assert_eq!(snapshot.last_event_ms, Some(6));
}

#[test]
fn event_counter_saturates() {
    let mut snapshot = DesktopSnapshot::empty("d");
    snapshot.total_events = u64::MAX;
    snapshot.record_event(String::from("s"), String::from("k"), 1);
    assert_eq!(snapshot.total_events, u64::MAX);
}

#[test]
fn refresh_interval_has_a_floor() {
    assert_eq!(refresh_interval_ms(0), 250);
    assert_eq!(refresh_interval_ms(250), 250);
    assert_eq!(refresh_interval_ms(300), 300);
}
