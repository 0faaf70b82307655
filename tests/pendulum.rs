use church_clock::{
    PendulumCatcher, PendulumCatcherCommand, PendulumCatcherStatus, CATCHER_TIMEOUT_MS,
    PENDULUM_CATCHER_COMMAND_TOPIC,
};

fn freed_catcher() -> PendulumCatcher {
    let mut c = PendulumCatcher::new(0);
    assert_eq!(c.poll(true, false, None, 0), Some(PendulumCatcherStatus::Freed));
    c
}

#[test]
fn catch_from_freed_reports_catching_then_caught() {
    let mut c = freed_catcher();
    let mut events = Vec::new();
    let mut now: u64 = 1000;
    if let Some(e) = c.poll(true, false, Some(PendulumCatcherCommand::Catch), now) {
        events.push(e);
    }
    assert!(!c.motor_direction_high);
    // the pendulum leaves the freed end-stop and reaches the caught one 0.5 s later
    while now < 1500 {
        now += 100;
        let sense_out_low = now >= 1500;
        if let Some(e) = c.poll(false, sense_out_low, None, now) {
            events.push(e);
        }
    }
    for _ in 0..10 {
        now += 100;
        assert_eq!(c.poll(false, true, None, now), None);
    }
    assert_eq!(events, vec![PendulumCatcherStatus::Catching, PendulumCatcherStatus::Caught]);
    assert_eq!(c.status, PendulumCatcherStatus::Caught);
    assert!(c.motor_enable_high);
}

#[test]
fn catching_times_out_into_error_once() {
    let mut c = freed_catcher();
    assert_eq!(
        c.poll(true, false, Some(PendulumCatcherCommand::Catch), 1000),
        Some(PendulumCatcherStatus::Catching)
    );
    let mut errors = 0;
    let mut now: u64 = 1000;
    for _ in 0..100 {
        now += 100;
        match c.poll(false, false, None, now) {
            Some(PendulumCatcherStatus::Error) => {
                errors += 1;
                assert!(now - 1000 >= CATCHER_TIMEOUT_MS);
            }
            Some(other) => panic!("unexpected event {:?}", other),
            None => {}
        }
    }
    assert_eq!(errors, 1);
    assert_eq!(c.status, PendulumCatcherStatus::Error);
    assert!(c.motor_enable_high);
    assert!(c.motor_direction_high);
}

#[test]
fn timeout_is_reached_at_exactly_two_seconds() {
    let mut c = PendulumCatcher::new(0);
    c.poll(false, false, Some(PendulumCatcherCommand::Free), 5000);
    assert_eq!(c.poll(false, false, None, 6999), None);
    assert_eq!(c.poll(false, false, None, 7000), Some(PendulumCatcherStatus::Error));
}

#[test]
fn error_stays_whatever_the_end_stops_say() {
    let mut c = PendulumCatcher::new(0);
    c.poll(false, false, Some(PendulumCatcherCommand::Catch), 0);
    assert_eq!(c.poll(false, false, None, 2500), Some(PendulumCatcherStatus::Error));
    assert_eq!(c.poll(true, false, None, 2600), None);
    assert_eq!(c.poll(false, true, None, 2700), None);
    assert_eq!(c.poll(true, true, None, 2800), None);
    assert_eq!(c.status, PendulumCatcherStatus::Error);
}

#[test]
fn freeing_reaches_freed() {
    let mut c = PendulumCatcher::new(0);
    assert_eq!(c.poll(false, true, None, 0), Some(PendulumCatcherStatus::Caught));
    assert_eq!(
        c.poll(false, true, Some(PendulumCatcherCommand::Free), 100),
        Some(PendulumCatcherStatus::Freeing)
    );
    assert!(c.motor_direction_high);
    assert_eq!(c.command_started_ms, 100);
    assert_eq!(c.poll(false, false, None, 200), None);
    assert_eq!(c.poll(true, false, None, 300), Some(PendulumCatcherStatus::Freed));
}

#[test]
fn catch_while_caught_restarts_catching() {
    let mut c = PendulumCatcher::new(0);
    assert_eq!(c.poll(false, true, None, 0), Some(PendulumCatcherStatus::Caught));
    assert_eq!(
        c.poll(false, true, Some(PendulumCatcherCommand::Catch), 3000),
        Some(PendulumCatcherStatus::Catching)
    );
    assert_eq!(c.command_started_ms, 3000);
    assert_eq!(c.poll(false, true, None, 3100), Some(PendulumCatcherStatus::Caught));
}

#[test]
fn inconsistent_end_stops_read_unknown() {
    let mut c = freed_catcher();
    assert_eq!(c.poll(true, true, None, 100), Some(PendulumCatcherStatus::Unknown));
    assert_eq!(c.poll(false, false, None, 200), None);
    assert_eq!(c.poll(false, true, None, 300), Some(PendulumCatcherStatus::Caught));
}

#[test]
fn new_catcher_holds_motor_inactive() {
    let c = PendulumCatcher::new(42);
    assert_eq!(c.status, PendulumCatcherStatus::Unknown);
    assert_eq!(c.command_started_ms, 42);
    assert!(c.motor_enable_high);
    assert!(c.motor_direction_high);
}

#[test]
fn commands_are_read_from_their_topic_only() {
    assert_eq!(
        PendulumCatcherCommand::from_message(PENDULUM_CATCHER_COMMAND_TOPIC, "Catch"),
        Some(PendulumCatcherCommand::Catch)
    );
    assert_eq!(
        PendulumCatcherCommand::from_message("rust/PendulumCatcher/set", "Free"),
        Some(PendulumCatcherCommand::Free)
    );
    assert_eq!(PendulumCatcherCommand::from_message("rust/ClockTime", "Catch"), None);
    assert_eq!(PendulumCatcherCommand::from_message(PENDULUM_CATCHER_COMMAND_TOPIC, "catch"), None);
    assert_eq!(PendulumCatcherCommand::from_message(PENDULUM_CATCHER_COMMAND_TOPIC, ""), None);
    assert_eq!(PendulumCatcherCommand::from_payload("Catch "), None);
    assert_eq!(PendulumCatcherCommand::from_payload("Free"), Some(PendulumCatcherCommand::Free));
}

#[test]
fn pendulum_names() {
    assert_eq!(PendulumCatcherCommand::Catch.as_str(), "Catch");
    assert_eq!(PendulumCatcherCommand::Free.as_str(), "Free");
    let all = [
        (PendulumCatcherStatus::Unknown, "Unknown"),
        (PendulumCatcherStatus::Error, "Error"),
        (PendulumCatcherStatus::Catching, "Catching"),
        (PendulumCatcherStatus::Caught, "Caught"),
        (PendulumCatcherStatus::Freeing, "Freeing"),
        (PendulumCatcherStatus::Freed, "Freed"),
    ];
    for (s, name) in all {
        assert_eq!(s.as_str(), name);
    }
}

#[test]
fn steady_inputs_settle_after_two_polls() {
    let mut c = PendulumCatcher::new(0);
    c.poll(false, false, Some(PendulumCatcherCommand::Catch), 0);
    assert_eq!(c.poll(true, true, None, 500), Some(PendulumCatcherStatus::Caught));
    assert_eq!(c.poll(true, true, None, 500), Some(PendulumCatcherStatus::Unknown));
    let settled = c;
    assert_eq!(c.poll(true, true, None, 500), None);
    assert_eq!(c, settled);
}
