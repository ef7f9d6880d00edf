//! The schedule by which the native host retries its handshake with the
//! bridge: a bounded number of attempts, with a wait that doubles from one
//! failure to the next and depends on nothing but the number of failures.

use vstd::prelude::*;

verus! {

/// The number of the first failure whose wait, two to the power of that
/// number in seconds, no longer fits the machine's 64-bit unsigned integer.
pub const ATTEMPT_LIMIT: u32 = 64;

/// Two to the power `n`.
pub open spec fn two_to(n: nat) -> nat
    decreases n,
{
    if n == 0 {
        1
    } else {
        2 * two_to((n - 1) as nat)
    }
}

/// The wait after the failure number `failure` (the first failure has number
/// one), in seconds.
pub open spec fn backoff_seconds(failure: nat) -> nat {
    two_to(failure)
}

/// What to do after a failed handshake.
#[derive(Clone, Copy, Debug, PartialEq, Eq, Structural)]
pub enum RetryDecision {
    /// Wait for `seconds` seconds, then try again.
    RetryAfter { seconds: u64 },
    /// The attempts are used up: report the last failure.
    GiveUp,
    /// Another attempt is allowed, but the wait before it cannot be held in
    /// 64 bits.
    WaitTooLong,
}

/// The number of failures on record once one more handshake has failed,
/// `failures` being on record before: it grows by one until the attempts are
/// used up and never passes `max_attempts`.
pub open spec fn failures_after(failures: nat, max_attempts: nat) -> nat {
    if failures + 1 >= max_attempts {
        max_attempts
    } else {
        failures + 1
    }
}

/// Whether a handshake may be attempted with `failures` failures on record:
/// as long as fewer attempts have failed than are allowed, so never where
/// none is allowed.
pub open spec fn attempt_is_allowed(failures: nat, max_attempts: nat) -> bool {
    failures < max_attempts
}

/// Whether one more failure, `failures` being on record, uses up the
/// attempts.
pub open spec fn gives_up(failures: nat, max_attempts: nat) -> bool {
    failures + 1 >= max_attempts
}

/// The sum of the waits after the failures `failures + 1`, `failures + 2`,
/// and so on up to the last failure that is followed by another attempt.
pub open spec fn remaining_wait(failures: nat, max_attempts: nat) -> nat
    decreases max_attempts - failures,
{
    if gives_up(failures, max_attempts) {
        0
    } else {
        backoff_seconds(failures + 1) + remaining_wait(failures + 1, max_attempts)
    }
}

/// What a run of the connect loop came to.
pub struct ConnectRun {
    /// The handshakes that were attempted.
    pub attempts: nat,
    /// The seconds that were waited between them.
    pub waited: nat,
    /// Whether the last of them succeeded.
    pub connected: bool,
}

/// The run of the connect loop with `failures` failures on record, the
/// handshakes to come ending as `outcomes` tells (`true` for success). No
/// handshake is attempted that is not allowed. The loop ends with the first
/// success, with the failure that uses up the attempts, or where `outcomes`
/// ends.
pub open spec fn connect_run(failures: nat, max_attempts: nat, outcomes: Seq<bool>) -> ConnectRun
    decreases outcomes.len(),
{
    if outcomes.len() == 0 || !attempt_is_allowed(failures, max_attempts) {
        ConnectRun { attempts: 0, waited: 0, connected: false }
    } else if outcomes[0] {
        ConnectRun { attempts: 1, waited: 0, connected: true }
    } else if gives_up(failures, max_attempts) {
        ConnectRun { attempts: 1, waited: 0, connected: false }
    } else {
        let rest = connect_run(failures + 1, max_attempts, outcomes.drop_first());
        ConnectRun {
            attempts: 1 + rest.attempts,
            waited: backoff_seconds(failures + 1) + rest.waited,
            connected: rest.connected,
        }
    }
}

/// The progress of one connect loop.
#[derive(Clone, Copy, Debug, PartialEq, Eq)]
pub struct RetrySchedule {
    max_attempts: u32,
    failures: u32,
}

impl RetrySchedule {
    /// The number of attempts that the schedule allows.
    pub closed spec fn spec_max_attempts(&self) -> nat {
        self.max_attempts as nat
    }

    /// The failures on record.
    pub closed spec fn spec_failures(&self) -> nat {
        self.failures as nat
    }

    /// The schedule is one that [`Self::new`] made and
    /// [`Self::record_failure`] advanced.
    pub closed spec fn wf(&self) -> bool {
        self.failures <= self.max_attempts
    }

    /// A schedule of `max_attempts` attempts with no failure on record.
    pub fn new(max_attempts: u32) -> (schedule: RetrySchedule)
        ensures
            schedule.wf(),
            schedule.spec_max_attempts() == max_attempts,
            schedule.spec_failures() == 0,
    {
        RetrySchedule { max_attempts, failures: 0 }
    }

    /// The number of attempts that the schedule allows.
    pub fn max_attempts(&self) -> (max: u32)
        ensures
            max == self.spec_max_attempts(),
    {
        self.max_attempts
    }

    /// The failures on record.
    pub fn failures(&self) -> (count: u32)
        ensures
            count == self.spec_failures(),
    {
        self.failures
    }

    /// Whether a handshake may be attempted now. It is asked before each
    /// handshake; a schedule of no attempts allows none.
    pub fn attempt_allowed(&self) -> (allowed: bool)
        ensures
            allowed == attempt_is_allowed(self.spec_failures(), self.spec_max_attempts()),
    {
        self.failures < self.max_attempts
    }

    /// Records that a handshake failed and says what to do: give up where
    /// this failure uses up the attempts, else wait two to the power of the
    /// number of failures so far, in seconds, and try again. A wait that
    /// 64 bits cannot hold is reported as such.
    pub fn record_failure(&mut self) -> (decision: RetryDecision)
        requires
            old(self).wf(),
        ensures
            final(self).wf(),
            final(self).spec_max_attempts() == old(self).spec_max_attempts(),
            final(self).spec_failures() == failures_after(
                old(self).spec_failures(),
                old(self).spec_max_attempts(),
            ),
            match decision {
                RetryDecision::GiveUp => gives_up(
                    old(self).spec_failures(),
                    old(self).spec_max_attempts(),
                ),
                RetryDecision::RetryAfter { seconds } => !gives_up(
                    old(self).spec_failures(),
                    old(self).spec_max_attempts(),
                ) && old(self).spec_failures() + 1 < ATTEMPT_LIMIT && seconds == backoff_seconds(
                    old(self).spec_failures() + 1,
                ),
                RetryDecision::WaitTooLong => !gives_up(
                    old(self).spec_failures(),
                    old(self).spec_max_attempts(),
                ) && old(self).spec_failures() + 1 >= ATTEMPT_LIMIT,
            },
    {
        if self.max_attempts - self.failures <= 1 {
            self.failures = self.max_attempts;
            RetryDecision::GiveUp
        } else {
            self.failures = self.failures + 1;
            match wait_seconds(self.failures) {
                Some(seconds) => RetryDecision::RetryAfter { seconds },
                None => RetryDecision::WaitTooLong,
            }
        }
    }
}

/// Two to the power `n` grows with `n`.
pub proof fn lemma_two_to_grows(low: nat, high: nat)
    requires
        low <= high,
    ensures
        two_to(low) <= two_to(high),
        two_to(low) >= 1,
    decreases high,
{
    if low < high {
        lemma_two_to_grows(low, (high - 1) as nat);
    } else if low > 0 {
        lemma_two_to_grows((low - 1) as nat, (low - 1) as nat);
    }
}

proof fn lemma_two_to_63()
    ensures
        two_to(63) == 0x8000_0000_0000_0000,
{
    reveal_with_fuel(two_to, 64);
}

/// The wait after the failure number `failure`, in seconds, or `None` where
/// 64 bits cannot hold it.
pub fn wait_seconds(failure: u32) -> (wait: Option<u64>)
    ensures
        match wait {
            Some(seconds) => failure < ATTEMPT_LIMIT && seconds == backoff_seconds(
                failure as nat,
            ),
            None => failure >= ATTEMPT_LIMIT,
        },
{
    if failure >= ATTEMPT_LIMIT {
        return None;
    }
    let mut seconds: u64 = 1;
    let mut done: u32 = 0;
    while done < failure
        invariant
            done <= failure,
            failure < ATTEMPT_LIMIT,
            seconds == two_to(done as nat),
        decreases failure - done,
    {
        proof {
            lemma_two_to_grows((done + 1) as nat, 63);
            lemma_two_to_63();
        }
        seconds = seconds * 2;
        done = done + 1;
    }
    Some(seconds)
}

/// The waits that are left add up to the difference of two powers of two.
pub proof fn lemma_remaining_wait(failures: nat, max_attempts: nat)
    requires
        failures < max_attempts,
    ensures
        remaining_wait(failures, max_attempts) + two_to(failures + 1) == two_to(max_attempts),
    decreases max_attempts - failures,
{
    if !gives_up(failures, max_attempts) {
        lemma_remaining_wait(failures + 1, max_attempts);
    }
}

/// However the handshakes end, a connect loop that allows `max_attempts`
/// attempts makes no more than the attempts that are left, none where none
/// is allowed, and waits no longer than the waits that are left add up to.
pub proof fn lemma_connect_run_bounded(failures: nat, max_attempts: nat, outcomes: Seq<bool>)
    requires
        failures <= max_attempts,
    ensures
        connect_run(failures, max_attempts, outcomes).attempts <= max_attempts - failures,
        connect_run(failures, max_attempts, outcomes).attempts <= outcomes.len(),
        connect_run(failures, max_attempts, outcomes).waited <= remaining_wait(
            failures,
            max_attempts,
        ),
    decreases outcomes.len(),
{
    if outcomes.len() > 0 && attempt_is_allowed(failures, max_attempts) && !outcomes[0]
        && !gives_up(failures, max_attempts) {
        lemma_connect_run_bounded(failures + 1, max_attempts, outcomes.drop_first());
    }
}

/// A connect loop that allows no attempt makes none, waits for nothing and
/// ends unconnected, however a handshake would have ended.
pub proof fn lemma_no_attempt_allowed(outcomes: Seq<bool>)
    ensures
        connect_run(0, 0, outcomes) == (ConnectRun { attempts: 0, waited: 0, connected: false }),
{
}

/// Where every handshake fails, a connect loop that allows `max_attempts`
/// attempts makes exactly that many, waits two to the power `k` seconds
/// after the failure number `k` for each `k` from one up to but not
/// including `max_attempts`, and ends unconnected. With at least one attempt
/// the waits add up to two to the power `max_attempts` less two.
pub proof fn lemma_connect_run_exhausted(max_attempts: nat, outcomes: Seq<bool>)
    requires
        outcomes.len() >= max_attempts,
        forall|i: int| 0 <= i < outcomes.len() ==> !outcomes[i],
    ensures
        connect_run(0, max_attempts, outcomes).attempts == max_attempts,
        connect_run(0, max_attempts, outcomes).waited == remaining_wait(0, max_attempts),
        max_attempts >= 1 ==> connect_run(0, max_attempts, outcomes).waited + 2 == two_to(
            max_attempts,
        ),
        max_attempts == 0 ==> connect_run(0, max_attempts, outcomes).waited == 0,
        !connect_run(0, max_attempts, outcomes).connected,
{
    if max_attempts >= 1 {
        lemma_all_fail_from(0, max_attempts, outcomes);
        lemma_remaining_wait(0, max_attempts);
        assert(two_to(1) == 2) by {
            reveal_with_fuel(two_to, 2);
        }
    }
}

proof fn lemma_all_fail_from(failures: nat, max_attempts: nat, outcomes: Seq<bool>)
    requires
        failures < max_attempts,
        outcomes.len() >= max_attempts - failures,
        forall|i: int| 0 <= i < outcomes.len() ==> !outcomes[i],
    ensures
        connect_run(failures, max_attempts, outcomes).attempts == max_attempts - failures,
        connect_run(failures, max_attempts, outcomes).waited == remaining_wait(
            failures,
            max_attempts,
        ),
        !connect_run(failures, max_attempts, outcomes).connected,
    decreases outcomes.len(),
{
    assert(!outcomes[0]);
    if !gives_up(failures, max_attempts) {
        let rest = outcomes.drop_first();
        assert forall|i: int| 0 <= i < rest.len() implies !rest[i] by {
            assert(rest[i] == outcomes[i + 1]);
        }
        lemma_all_fail_from(failures + 1, max_attempts, rest);
    }
}

} // verus!
