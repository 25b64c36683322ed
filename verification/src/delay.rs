//! The rate-limiter delay primitive: a fixed duration derived from a byte
//! rate, slept once per relay cycle, with an interruption-safe retry loop.
//!
//! The binary turns the configured rate into whole nanoseconds and builds a
//! `Delay` with [`Delay::from_nanos`]. The OS sleep call itself lives with
//! the binary; its retry decisions are [`sleep_step`], and
//! [`Delay::sleep_through`] runs the whole retry loop against a given
//! sequence of sleep outcomes, which pins down how much time any such run
//! must have spent sleeping.

use vstd::prelude::*;

verus! {

/// Nanoseconds in one second.
pub const SEC_NS: i32 = 1_000_000_000;

/// A sleep request: whole seconds and leftover nanoseconds, mirroring the
/// shape the OS sleep call takes.
#[derive(Clone, Copy, Debug, PartialEq, Eq, Structural)]
pub struct TimeSpec {
    pub tv_sec: i64,
    pub tv_nsec: i64,
}

impl TimeSpec {
    /// Total length in nanoseconds.
    pub open spec fn total_ns(self) -> int {
        self.tv_sec * (SEC_NS as int) + self.tv_nsec
    }

    /// A request is well formed when the OS accepts it: non-negative
    /// seconds, nanoseconds below one second.
    pub open spec fn wf(self) -> bool {
        0 <= self.tv_sec && 0 <= self.tv_nsec < SEC_NS
    }

    /// Total length in nanoseconds, as a machine integer.
    pub fn as_ns(&self) -> (r: i64)
        requires
            self.wf(),
            self.total_ns() <= i64::MAX,
        ensures
            r == self.total_ns(),
    {
        self.tv_sec * (SEC_NS as i64) + self.tv_nsec
    }
}

/// The fixed pause enforced once per relay cycle.
#[derive(Clone, Copy, Debug, PartialEq, Eq, Structural)]
pub struct Delay {
    pub ts: TimeSpec,
}

/// What one OS sleep call reported back.
#[derive(Clone, Copy, Debug, PartialEq, Eq, Structural)]
pub enum SleepOutcome {
    /// The whole requested time was slept.
    Completed,
    /// A signal arrived first; this much of the request was left unslept.
    Interrupted(TimeSpec),
    /// The call failed with an error other than interruption.
    Failed,
}

/// What the retry loop does after one OS sleep call.
#[derive(Clone, Copy, Debug, PartialEq, Eq, Structural)]
pub enum SleepStep {
    /// The full duration has elapsed; stop.
    Done,
    /// Sleep again, for exactly the reported remainder.
    Retry(TimeSpec),
    /// Propagate the error; pacing is advisory, data never depends on it.
    Fail,
}

/// Decides the next move of the interruption-safe sleep loop. An interrupted
/// call is resumed for exactly the remaining portion reported by the OS,
/// never for the full original duration.
pub fn sleep_step(outcome: &SleepOutcome) -> (r: SleepStep)
    ensures
        outcome is Completed ==> r is Done,
        outcome matches SleepOutcome::Interrupted(rem) ==> r == SleepStep::Retry(*rem),
        outcome is Failed ==> r is Fail,
{
    match outcome {
        SleepOutcome::Completed => SleepStep::Done,
        SleepOutcome::Interrupted(rem) => SleepStep::Retry(*rem),
        SleepOutcome::Failed => SleepStep::Fail,
    }
}

/// An outcome sequence is consistent with the OS contract for a loop whose
/// first request is `q`: a reported remainder is well formed and never
/// exceeds what was asked for, and the next request is exactly that
/// remainder.
pub open spec fn valid_outcomes(q: TimeSpec, outcomes: Seq<SleepOutcome>) -> bool
    decreases outcomes.len(),
{
    outcomes.len() > 0 ==> match outcomes[0] {
        SleepOutcome::Completed => true,
        SleepOutcome::Failed => true,
        SleepOutcome::Interrupted(rem) => rem.wf() && rem.total_ns() <= q.total_ns()
            && valid_outcomes(rem, outcomes.drop_first()),
    }
}

/// What the retry loop makes of an outcome sequence, starting from request
/// `q` with `elapsed` nanoseconds already credited: how it ends, and the
/// total it can be credited — the OS guarantees each call slept at least
/// the request minus the reported remainder, and a completed call the whole
/// request.
pub open spec fn spec_sleep_run(q: TimeSpec, outcomes: Seq<SleepOutcome>, elapsed: int) -> (
    SleepEnd,
    int,
)
    decreases outcomes.len(),
{
    if outcomes.len() == 0 {
        (SleepEnd::StillSleeping, elapsed)
    } else {
        match outcomes[0] {
            SleepOutcome::Completed => (SleepEnd::Finished, elapsed + q.total_ns()),
            SleepOutcome::Failed => (SleepEnd::Errored, elapsed),
            SleepOutcome::Interrupted(rem) => spec_sleep_run(
                rem,
                outcomes.drop_first(),
                elapsed + q.total_ns() - rem.total_ns(),
            ),
        }
    }
}

/// How a run of the sleep retry loop ended.
#[derive(Clone, Copy, Debug, PartialEq, Eq, Structural)]
pub enum SleepEnd {
    /// The configured duration fully elapsed.
    Finished,
    /// An OS error other than interruption cut the loop short.
    Errored,
    /// The outcome sequence ran out while the loop still had time to sleep.
    StillSleeping,
}

/// A run of the sleep retry loop: how it ended, and a lower bound on the
/// time it must have spent sleeping.
#[derive(Clone, Copy, Debug, PartialEq, Eq, Structural)]
pub struct SleepRun {
    pub end: SleepEnd,
    pub min_elapsed_ns: i64,
}

impl Delay {
    /// Builds the delay from a whole number of nanoseconds, splitting it
    /// into the seconds-and-nanoseconds shape the OS sleep call takes.
    pub fn from_nanos(nanos: i32) -> (r: Delay)
        requires
            0 <= nanos,
        ensures
            r.ts.tv_sec == nanos / SEC_NS,
            r.ts.tv_nsec == nanos % SEC_NS,
            r.ts.total_ns() == nanos,
            r.ts.wf(),
    {
        let sec = nanos / SEC_NS;
        let nsec = nanos % SEC_NS;
        Delay { ts: TimeSpec { tv_sec: sec as i64, tv_nsec: nsec as i64 } }
    }

    /// Runs the interruption-safe sleep loop against a given sequence of OS
    /// sleep outcomes. Whenever a call is interrupted, the loop resumes for
    /// exactly the reported remainder, so that once it finishes, the time
    /// spent sleeping adds up to no less than the configured duration: the
    /// OS guarantees each call slept at least the request minus the reported
    /// remainder, and those amounts telescope to the full duration.
    pub fn sleep_through(&self, outcomes: &Vec<SleepOutcome>) -> (r: SleepRun)
        requires
            self.ts.wf(),
            self.ts.total_ns() <= i64::MAX,
            valid_outcomes(self.ts, outcomes@),
        ensures
            (r.end, r.min_elapsed_ns as int) == spec_sleep_run(self.ts, outcomes@, 0),
            r.end is Finished ==> r.min_elapsed_ns == self.ts.total_ns(),
            0 <= r.min_elapsed_ns <= self.ts.total_ns(),
    {
        let mut q: TimeSpec = self.ts;
        let mut elapsed: i64 = 0;
        let mut i: usize = 0;
        proof {
            assert(outcomes@.skip(0) =~= outcomes@);
        }
        loop
            invariant
                q.wf(),
                0 <= elapsed,
                elapsed + q.total_ns() == self.ts.total_ns(),
                self.ts.total_ns() <= i64::MAX,
                i <= outcomes@.len(),
                valid_outcomes(q, outcomes@.skip(i as int)),
                spec_sleep_run(self.ts, outcomes@, 0) == spec_sleep_run(
                    q,
                    outcomes@.skip(i as int),
                    elapsed as int,
                ),
            decreases outcomes@.len() - i,
        {
            if i >= outcomes.len() {
                return SleepRun { end: SleepEnd::StillSleeping, min_elapsed_ns: elapsed };
            }
            let outcome = outcomes[i];
            proof {
                assert(outcomes@.skip(i as int)[0] == outcomes@[i as int]);
                assert(outcomes@.skip(i as int).drop_first() =~= outcomes@.skip(i + 1));
            }
            i = i + 1;
            match sleep_step(&outcome) {
                SleepStep::Done => {
                    let total = elapsed + q.as_ns();
                    return SleepRun { end: SleepEnd::Finished, min_elapsed_ns: total };
                }
                SleepStep::Retry(rem) => {
                    let slept = q.as_ns() - rem.as_ns();
                    elapsed = elapsed + slept;
                    q = rem;
                }
                SleepStep::Fail => {
                    return SleepRun { end: SleepEnd::Errored, min_elapsed_ns: elapsed };
                }
            }
        }
    }
}

} // verus!
