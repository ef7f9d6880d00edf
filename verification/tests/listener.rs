use neodlp_bridge::listener::{
    accept_step, begin_start, start_step, AcceptAction, AcceptEvent, BindError, BindFailure,
    StartAction, StartEvent, StartPhase, FINAL_PAUSE_MS, PROBE_INTERVAL_MS, PROBE_LIMIT, SETTLE_MS,
};

fn drive(port: u16, events: Vec<StartEvent>) -> (StartPhase, Vec<StartAction>) {
    let mut phase = begin_start();
    let mut actions = Vec::new();
    for event in events {
        let (next, action) = start_step(port, phase, event);
        phase = next;
        actions.push(action);
    }
    (phase, actions)
}

fn refused(reason: &str) -> StartEvent {
    StartEvent::BindRefused { reason: reason.to_string() }
}

#[test]
fn constants_of_the_start() {
    assert_eq!(PROBE_LIMIT, 6);
    assert_eq!(PROBE_INTERVAL_MS, 500);
    assert_eq!(FINAL_PAUSE_MS, 1000);
    assert_eq!(SETTLE_MS, 100);
    assert_eq!(PROBE_LIMIT as u64 * PROBE_INTERVAL_MS, 3000);
}

#[test]
fn first_start_binds_at_once() {
    let (phase, actions) =
        drive(53511, vec![StartEvent::Begin { prior_listener: false }, StartEvent::Bound]);
    assert_eq!(phase, StartPhase::Serving);
    assert_eq!(
        actions,
        vec![StartAction::Bind { after_ms: 0 }, StartAction::Install { settle_ms: 100 }]
    );
}

#[test]
fn start_on_a_port_that_cannot_be_bound_reports_a_bind_error() {
    let (phase, actions) = drive(
        53511,
        vec![
            StartEvent::Begin { prior_listener: false },
            refused("address in use"),
            refused("still in use"),
        ],
    );
    assert_eq!(phase, StartPhase::Failed);
    assert_eq!(
        actions,
        vec![
            StartAction::Bind { after_ms: 0 },
            StartAction::Bind { after_ms: 1000 },
            StartAction::Fail {
                after_ms: 0,
                error: BindError {
                    port: 53511,
                    cause: BindFailure::Refused { reason: "still in use".to_string() },
                },
            },
        ]
    );
}

#[test]
fn start_on_port_zero_reports_a_bind_error_without_binding() {
    for prior_listener in [false, true] {
        let (phase, actions) = drive(0, vec![StartEvent::Begin { prior_listener }]);
        assert_eq!(phase, StartPhase::Failed);
        let error = BindError { port: 0, cause: BindFailure::InvalidPort };
        assert_eq!(actions, vec![StartAction::Fail { after_ms: 0, error: error.clone() }]);
        assert_eq!(error.message(), "Port 0 is not a valid port");
        assert_eq!(
            start_step(0, phase, StartEvent::Bound),
            (StartPhase::Failed, StartAction::Unexpected)
        );
    }
}

#[test]
fn second_bind_can_succeed_after_the_pause() {
    let (phase, actions) = drive(
        8000,
        vec![StartEvent::Begin { prior_listener: false }, refused("busy"), StartEvent::Bound],
    );
    assert_eq!(phase, StartPhase::Serving);
    assert_eq!(actions[1], StartAction::Bind { after_ms: 1000 });
    assert_eq!(actions[2], StartAction::Install { settle_ms: 100 });
}

#[test]
fn restart_waits_for_the_port_to_be_released() {
    for failed in 0..6usize {
        let mut events = vec![StartEvent::Begin { prior_listener: true }];
        for _ in 0..failed {
            events.push(StartEvent::Probed { available: false });
        }
        events.push(StartEvent::Probed { available: true });
        events.push(StartEvent::Bound);
        let (phase, actions) = drive(53511, events);
        assert_eq!(phase, StartPhase::Serving);
        assert_eq!(actions[0], StartAction::AbortThenProbe);
        for k in 0..failed {
            assert_eq!(actions[1 + k], StartAction::Probe { after_ms: 500 });
        }
        assert_eq!(actions[1 + failed], StartAction::Bind { after_ms: 0 });
        assert_eq!(actions[2 + failed], StartAction::Install { settle_ms: 100 });
    }
}

#[test]
fn restart_binds_after_six_failed_probes() {
    let mut events = vec![StartEvent::Begin { prior_listener: true }];
    for _ in 0..6 {
        events.push(StartEvent::Probed { available: false });
    }
    let (phase, actions) = drive(4242, events.clone());
    assert_eq!(phase, StartPhase::FirstBind);
    assert_eq!(actions.len(), 7);
    assert_eq!(actions[0], StartAction::AbortThenProbe);
    for k in 1..6 {
        assert_eq!(actions[k], StartAction::Probe { after_ms: 500 });
    }
    assert_eq!(actions[6], StartAction::Bind { after_ms: 500 });

    let mut released_late = events.clone();
    released_late.push(StartEvent::Bound);
    let (phase, actions) = drive(4242, released_late);
    assert_eq!(phase, StartPhase::Serving);
    assert_eq!(actions[7], StartAction::Install { settle_ms: 100 });
}

#[test]
fn restart_on_a_port_that_stays_taken_fails_at_the_last_bind() {
    let mut events = vec![StartEvent::Begin { prior_listener: true }];
    for _ in 0..6 {
        events.push(StartEvent::Probed { available: false });
    }
    events.push(refused("address in use"));
    events.push(refused("address still in use"));
    let (phase, actions) = drive(4242, events);
    assert_eq!(phase, StartPhase::Failed);
    assert_eq!(actions[6], StartAction::Bind { after_ms: 500 });
    assert_eq!(actions[7], StartAction::Bind { after_ms: 1000 });
    let error = BindError {
        port: 4242,
        cause: BindFailure::Refused { reason: "address still in use".to_string() },
    };
    assert_eq!(actions[8], StartAction::Fail { after_ms: 0, error: error.clone() });
    assert_eq!(error.message(), "Failed to bind to port 4242: address still in use");
    let slept: u64 = actions
        .iter()
        .map(|action| match action {
            StartAction::Probe { after_ms } | StartAction::Bind { after_ms } => *after_ms,
            StartAction::Fail { after_ms, .. } => *after_ms,
            _ => 0,
        })
        .sum();
    assert_eq!(slept, 3000 + 1000);
}

#[test]
fn messages_of_a_failed_start() {
    let refused = BindError {
        port: 9,
        cause: BindFailure::Refused { reason: "Permission denied (os error 13)".to_string() },
    };
    assert_eq!(refused.message(), "Failed to bind to port 9: Permission denied (os error 13)");
    let invalid = BindError { port: 0, cause: BindFailure::InvalidPort };
    assert_eq!(invalid.message(), "Port 0 is not a valid port");
}

#[test]
fn events_out_of_turn_change_nothing() {
    assert_eq!(
        start_step(1, StartPhase::Idle, StartEvent::Bound),
        (StartPhase::Idle, StartAction::Unexpected)
    );
    assert_eq!(
        start_step(1, StartPhase::Serving, StartEvent::Begin { prior_listener: true }),
        (StartPhase::Serving, StartAction::Unexpected)
    );
    assert_eq!(
        start_step(1, StartPhase::Failed, StartEvent::Probed { available: true }),
        (StartPhase::Failed, StartAction::Unexpected)
    );
    assert_eq!(
        start_step(1, StartPhase::FirstBind, StartEvent::Probed { available: true }),
        (StartPhase::FirstBind, StartAction::Unexpected)
    );
    assert_eq!(
        start_step(1, StartPhase::Probing { probes: 2 }, StartEvent::Bound),
        (StartPhase::Probing { probes: 2 }, StartAction::Unexpected)
    );
}

#[test]
fn accept_loop_goes_on_only_for_a_connection() {
    assert_eq!(accept_step(AcceptEvent::Connection), AcceptAction::Serve);
    assert_eq!(accept_step(AcceptEvent::AcceptFailed), AcceptAction::Stop);
    assert_eq!(accept_step(AcceptEvent::Aborted), AcceptAction::Stop);
}
