//! The life cycle of the bridge's listener: how a start on a port proceeds
//! from the events that the operating system reports.
//!
//! Starting is a small machine. The caller performs each action (signal the
//! old listener, probe the port, bind, sleep) and hands back what happened;
//! the machine says what to do next and when the start has succeeded or
//! failed.

use vstd::prelude::*;
use vstd::string::*;
use crate::text::{decimal, decimal_string};

verus! {

/// How many times the port is probed after the old listener was told to stop.
pub const PROBE_LIMIT: u32 = 6;

/// The pause after a probe that found the port still taken, in milliseconds.
pub const PROBE_INTERVAL_MS: u64 = 500;

/// The pause before the second and last attempt to bind, in milliseconds.
pub const FINAL_PAUSE_MS: u64 = 1000;

/// The time given to the accept loop to start, in milliseconds.
pub const SETTLE_MS: u64 = 100;

/// Why a port could not be bound.
#[derive(Clone, Debug, PartialEq, Eq)]
pub enum BindFailure {
    /// The port is not one that a listener can be asked for.
    InvalidPort,
    /// The operating system refused the last attempt to bind.
    Refused { reason: String },
}

/// The listener could not be started on `port`.
#[derive(Clone, Debug, PartialEq, Eq)]
pub struct BindError {
    pub port: u16,
    pub cause: BindFailure,
}

/// Where a start stands.
#[derive(Clone, Copy, Debug, PartialEq, Eq, Structural)]
pub enum StartPhase {
    /// Nothing was done yet.
    Idle,
    /// The old listener was told to stop and the port is given time to
    /// become free; `probes` probes found it still taken.
    Probing { probes: u32 },
    /// The first attempt to bind is under way.
    FirstBind,
    /// The second and last attempt to bind is under way.
    FinalBind,
    /// The port is bound and the accept loop may run.
    Serving,
    /// The start was given up.
    Failed,
}

/// What the caller reports to the machine.
#[derive(Clone, Debug, PartialEq, Eq)]
pub enum StartEvent {
    /// A start was asked for; `prior_listener` tells whether a listener was
    /// installed before.
    Begin { prior_listener: bool },
    /// A probe of the port ended.
    Probed { available: bool },
    /// The port was bound.
    Bound,
    /// The operating system refused to bind the port.
    BindRefused { reason: String },
}

/// What the caller is to do next.
#[derive(Clone, Debug, PartialEq, Eq)]
pub enum StartAction {
    /// Tell the old listener to stop, then probe the port.
    AbortThenProbe,
    /// Sleep for `after_ms` milliseconds, then probe the port.
    Probe { after_ms: u64 },
    /// Sleep for `after_ms` milliseconds, then try to bind the port.
    Bind { after_ms: u64 },
    /// Install a fresh abort handle, start the accept loop on the bound
    /// port, sleep for `settle_ms` milliseconds and report success.
    Install { settle_ms: u64 },
    /// Sleep for `after_ms` milliseconds, then report `error`; no listener is
    /// installed.
    Fail { after_ms: u64, error: BindError },
    /// The event does not belong to the phase; nothing is to be done.
    Unexpected,
}

/// The next phase and the action for `event` in `phase`, for a start on
/// `port`.
pub open spec fn step(port: u16, phase: StartPhase, event: StartEvent) -> (
    StartPhase,
    StartAction,
) {
    match (phase, event) {
        (StartPhase::Idle, StartEvent::Begin { prior_listener }) => if port == 0 {
            (
                StartPhase::Failed,
                StartAction::Fail {
                    after_ms: 0,
                    error: BindError { port, cause: BindFailure::InvalidPort },
                },
            )
        } else if prior_listener {
            (StartPhase::Probing { probes: 0 }, StartAction::AbortThenProbe)
        } else {
            (StartPhase::FirstBind, StartAction::Bind { after_ms: 0 })
        },
        (StartPhase::Probing { probes }, StartEvent::Probed { available }) => if available {
            (StartPhase::FirstBind, StartAction::Bind { after_ms: 0 })
        } else if probes + 1 < PROBE_LIMIT {
            (
                StartPhase::Probing { probes: (probes + 1) as u32 },
                StartAction::Probe { after_ms: PROBE_INTERVAL_MS },
            )
        } else {
            (StartPhase::FirstBind, StartAction::Bind { after_ms: PROBE_INTERVAL_MS })
        },
        (StartPhase::FirstBind, StartEvent::Bound) => (
            StartPhase::Serving,
            StartAction::Install { settle_ms: SETTLE_MS },
        ),
        (StartPhase::FirstBind, StartEvent::BindRefused { reason }) => (
            StartPhase::FinalBind,
            StartAction::Bind { after_ms: FINAL_PAUSE_MS },
        ),
        (StartPhase::FinalBind, StartEvent::Bound) => (
            StartPhase::Serving,
            StartAction::Install { settle_ms: SETTLE_MS },
        ),
        (StartPhase::FinalBind, StartEvent::BindRefused { reason }) => (
            StartPhase::Failed,
            StartAction::Fail {
                after_ms: 0,
                error: BindError { port, cause: BindFailure::Refused { reason } },
            },
        ),
        _ => (phase, StartAction::Unexpected),
    }
}

/// The time that `action` has the caller sleep, in milliseconds.
pub open spec fn delay_ms(action: StartAction) -> nat {
    match action {
        StartAction::AbortThenProbe => 0,
        StartAction::Probe { after_ms } => after_ms as nat,
        StartAction::Bind { after_ms } => after_ms as nat,
        StartAction::Install { settle_ms } => settle_ms as nat,
        StartAction::Fail { after_ms, error } => after_ms as nat,
        StartAction::Unexpected => 0,
    }
}

/// The phase reached from `phase` by `events`, and the time slept on the
/// way, in milliseconds.
pub open spec fn start_run(port: u16, phase: StartPhase, events: Seq<StartEvent>) -> (StartPhase, nat)
    decreases events.len(),
{
    if events.len() == 0 {
        (phase, 0)
    } else {
        let (next, action) = step(port, phase, events[0]);
        let (last, slept) = start_run(port, next, events.drop_first());
        (last, delay_ms(action) + slept)
    }
}

/// The first phase of a start.
pub fn begin_start() -> (phase: StartPhase)
    ensures
        phase == StartPhase::Idle,
{
    StartPhase::Idle
}

/// Advances a start on `port` by one event.
pub fn start_step(port: u16, phase: StartPhase, event: StartEvent) -> (next: (
    StartPhase,
    StartAction,
))
    ensures
        next == step(port, phase, event),
{
    match phase {
        StartPhase::Idle => match event {
            StartEvent::Begin { prior_listener } => {
                if port == 0 {
                    (
                        StartPhase::Failed,
                        StartAction::Fail {
                            after_ms: 0,
                            error: BindError { port, cause: BindFailure::InvalidPort },
                        },
                    )
                } else if prior_listener {
                    (StartPhase::Probing { probes: 0 }, StartAction::AbortThenProbe)
                } else {
                    (StartPhase::FirstBind, StartAction::Bind { after_ms: 0 })
                }
            },
            _ => (phase, StartAction::Unexpected),
        },
        StartPhase::Probing { probes } => match event {
            StartEvent::Probed { available } => {
                if available {
                    (StartPhase::FirstBind, StartAction::Bind { after_ms: 0 })
                } else if probes < PROBE_LIMIT - 1 {
                    (
                        StartPhase::Probing { probes: probes + 1 },
                        StartAction::Probe { after_ms: PROBE_INTERVAL_MS },
                    )
                } else {
                    (StartPhase::FirstBind, StartAction::Bind { after_ms: PROBE_INTERVAL_MS })
                }
            },
            _ => (phase, StartAction::Unexpected),
        },
        StartPhase::FirstBind => match event {
            StartEvent::Bound => (
                StartPhase::Serving,
                StartAction::Install { settle_ms: SETTLE_MS },
            ),
            StartEvent::BindRefused { reason } => (
                StartPhase::FinalBind,
                StartAction::Bind { after_ms: FINAL_PAUSE_MS },
            ),
            _ => (phase, StartAction::Unexpected),
        },
        StartPhase::FinalBind => match event {
            StartEvent::Bound => (
                StartPhase::Serving,
                StartAction::Install { settle_ms: SETTLE_MS },
            ),
            StartEvent::BindRefused { reason } => (
                StartPhase::Failed,
                StartAction::Fail {
                    after_ms: 0,
                    error: BindError { port, cause: BindFailure::Refused { reason } },
                },
            ),
            _ => (phase, StartAction::Unexpected),
        },
        _ => (phase, StartAction::Unexpected),
    }
}

/// The text that reports a failed start.
pub open spec fn bind_error_text(port: u16, cause: BindFailure) -> Seq<char> {
    match cause {
        BindFailure::InvalidPort => "Port "@ + decimal(port as nat) + " is not a valid port"@,
        BindFailure::Refused { reason } => "Failed to bind to port "@ + decimal(port as nat)
            + ": "@ + reason@,
    }
}

impl BindError {
    /// The text shown to whoever asked for the start.
    pub fn message(&self) -> (text: String)
        ensures
            text@ == bind_error_text(self.port, self.cause),
    {
        let port = decimal_string(self.port as u64);
        match &self.cause {
            BindFailure::InvalidPort => {
                let mut text = String::from_str("Port ");
                text.append(port.as_str());
                text.append(" is not a valid port");
                text
            },
            BindFailure::Refused { reason } => {
                let mut text = String::from_str("Failed to bind to port ");
                text.append(port.as_str());
                text.append(": ");
                text.append(reason.as_str());
                text
            },
        }
    }
}

/// What the accept loop sees.
#[derive(Clone, Copy, Debug, PartialEq, Eq, Structural)]
pub enum AcceptEvent {
    /// A client connected.
    Connection,
    /// Accepting failed.
    AcceptFailed,
    /// The abort signal arrived.
    Aborted,
}

/// What the accept loop does.
#[derive(Clone, Copy, Debug, PartialEq, Eq, Structural)]
pub enum AcceptAction {
    /// Hand the connection to a handler of its own and go on accepting.
    Serve,
    /// Stop accepting; connections already handed out are left alone.
    Stop,
}

/// One turn of the accept loop: it goes on exactly when a client connected.
pub fn accept_step(event: AcceptEvent) -> (action: AcceptAction)
    ensures
        action == AcceptAction::Serve <==> event == AcceptEvent::Connection,
{
    match event {
        AcceptEvent::Connection => AcceptAction::Serve,
        AcceptEvent::AcceptFailed => AcceptAction::Stop,
        AcceptEvent::Aborted => AcceptAction::Stop,
    }
}

/// `failed` probes that find the port taken, then what `ending` tells.
pub open spec fn probes_then(failed: nat, ending: Seq<StartEvent>) -> Seq<StartEvent>
    decreases failed,
{
    if failed == 0 {
        ending
    } else {
        seq![StartEvent::Probed { available: false }] + probes_then((failed - 1) as nat, ending)
    }
}

/// `failed` probes that find the port taken, one that finds it free, and a
/// bind that succeeds.
pub open spec fn release_after(failed: nat) -> Seq<StartEvent> {
    probes_then(failed, seq![StartEvent::Probed { available: true }, StartEvent::Bound])
}

proof fn lemma_release_from(port: u16, probes: u32, failed: nat)
    requires
        probes + failed < PROBE_LIMIT,
    ensures
        start_run(port, StartPhase::Probing { probes }, release_after(failed)) == (
            StartPhase::Serving,
            (PROBE_INTERVAL_MS * failed + SETTLE_MS) as nat,
        ),
    decreases failed,
{
    let events = release_after(failed);
    if failed == 0 {
        assert(events.drop_first() =~= seq![StartEvent::Bound]);
        assert(events.drop_first().drop_first() =~= Seq::<StartEvent>::empty());
        reveal_with_fuel(start_run, 3);
    } else {
        assert(events[0] == StartEvent::Probed { available: false });
        assert(events.drop_first() =~= release_after((failed - 1) as nat));
        lemma_release_from(port, (probes + 1) as u32, (failed - 1) as nat);
    }
}

proof fn lemma_full_wait_from(port: u16, probes: u32, ending: Seq<StartEvent>)
    requires
        probes < PROBE_LIMIT,
    ensures
        ({
            let failed = (PROBE_LIMIT - probes) as nat;
            let after = start_run(port, StartPhase::FirstBind, ending);
            start_run(port, StartPhase::Probing { probes }, probes_then(failed, ending)) == (
                after.0,
                (PROBE_INTERVAL_MS * failed + after.1) as nat,
            )
        }),
    decreases PROBE_LIMIT - probes,
{
    let failed = (PROBE_LIMIT - probes) as nat;
    let events = probes_then(failed, ending);
    assert(events[0] == StartEvent::Probed { available: false });
    assert(events.drop_first() =~= probes_then((failed - 1) as nat, ending));
    if probes + 1 < PROBE_LIMIT {
        lemma_full_wait_from(port, (probes + 1) as u32, ending);
    } else {
        assert(probes_then(0, ending) == ending);
    }
}

/// A restart on a port whose old listener was told to stop succeeds as soon
/// as one of the probes finds the port free and the bind that follows
/// succeeds: after `failed` probes that found it taken, with fewer than the
/// limit of them, the listener is serving, and all the sleeping on the way
/// was the pause after each failed probe and the time given to the accept
/// loop.
pub proof fn lemma_restart_succeeds_once_released(port: u16, failed: nat)
    requires
        port != 0,
        failed < PROBE_LIMIT,
    ensures
        start_run(
            port,
            StartPhase::Idle,
            seq![StartEvent::Begin { prior_listener: true }] + release_after(failed),
        ) == (StartPhase::Serving, (PROBE_INTERVAL_MS * failed + SETTLE_MS) as nat),
        PROBE_INTERVAL_MS * failed < 3000,
{
    let events = seq![StartEvent::Begin { prior_listener: true }] + release_after(failed);
    assert(events[0] == StartEvent::Begin { prior_listener: true });
    assert(events.drop_first() =~= release_after(failed));
    lemma_release_from(port, 0, failed);
}

/// The probing only gives the port time: where every probe finds the port
/// taken, the port is bound all the same once the wait of three seconds is
/// over, and the start goes on from that bind as `ending` tells.
pub proof fn lemma_bind_follows_the_wait(port: u16, ending: Seq<StartEvent>)
    requires
        port != 0,
    ensures
        ({
            let after = start_run(port, StartPhase::FirstBind, ending);
            start_run(
                port,
                StartPhase::Idle,
                seq![StartEvent::Begin { prior_listener: true }] + probes_then(
                    PROBE_LIMIT as nat,
                    ending,
                ),
            ) == (after.0, (3000 + after.1) as nat)
        }),
{
    let events = seq![StartEvent::Begin { prior_listener: true }] + probes_then(
        PROBE_LIMIT as nat,
        ending,
    );
    assert(events[0] == StartEvent::Begin { prior_listener: true });
    assert(events.drop_first() =~= probes_then(PROBE_LIMIT as nat, ending));
    lemma_full_wait_from(port, 0, ending);
}

/// A port that the operating system refuses twice is reported: after the
/// first refusal comes the pause of one second and one last bind, and the
/// cause of the error is what that bind gave.
pub proof fn lemma_two_refusals_fail(port: u16, first: String, last: String)
    ensures
        start_run(
            port,
            StartPhase::FirstBind,
            seq![
                StartEvent::BindRefused { reason: first },
                StartEvent::BindRefused { reason: last },
            ],
        ) == (StartPhase::Failed, FINAL_PAUSE_MS as nat),
        step(port, StartPhase::FinalBind, StartEvent::BindRefused { reason: last }).1 == (
        StartAction::Fail {
            after_ms: 0,
            error: BindError { port, cause: BindFailure::Refused { reason: last } },
        }),
{
    let events = seq![
        StartEvent::BindRefused { reason: first },
        StartEvent::BindRefused { reason: last },
    ];
    assert(events.drop_first() =~= seq![StartEvent::BindRefused { reason: last }]);
    assert(events.drop_first().drop_first() =~= Seq::<StartEvent>::empty());
    reveal_with_fuel(start_run, 3);
}

/// Port zero is no port to listen on: a start on it fails at once, whether
/// or not a listener ran before, and nothing is bound.
pub proof fn lemma_port_zero_is_refused(prior_listener: bool)
    ensures
        step(0, StartPhase::Idle, StartEvent::Begin { prior_listener }) == (
            StartPhase::Failed,
            StartAction::Fail {
                after_ms: 0,
                error: BindError { port: 0, cause: BindFailure::InvalidPort },
            },
        ),
{
}

} // verus!
