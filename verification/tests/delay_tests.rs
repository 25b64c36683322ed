use slowpty::delay::{Delay, SleepEnd, SleepOutcome, SleepStep, TimeSpec, SEC_NS};

#[test]
fn from_nanos_splits_seconds_and_nanos() {
    let d = Delay::from_nanos(1_999_999_999);
    assert_eq!(d.ts.tv_sec, 1);
    assert_eq!(d.ts.tv_nsec, 999_999_999);

    let d = Delay::from_nanos(0);
    assert_eq!(d.ts.tv_sec, 0);
    assert_eq!(d.ts.tv_nsec, 0);

    let d = Delay::from_nanos(SEC_NS);
    assert_eq!(d.ts.tv_sec, 1);
    assert_eq!(d.ts.tv_nsec, 0);
}

#[test]
fn rate_to_nanos_matches_truncated_division() {
    // rate -> delay: nanos = trunc(1e9 / rate), computed in floating point by
    // the binary before the library is entered; non-positive rates are
    // rejected there and never reach Delay.
    let rate: f64 = 1000.0;
    let nanos = (1e9 / rate) as i32;
    assert_eq!(nanos, 1_000_000);
    let d = Delay::from_nanos(nanos);
    assert_eq!(d.ts.tv_sec, 0);
    assert_eq!(d.ts.tv_nsec, 1_000_000);

    let rate: f64 = 3.0;
    let nanos = (1e9 / rate) as i32;
    assert_eq!(nanos, 333_333_333);

    let rate: f64 = 0.5;
    let nanos = (1e9 / rate) as i32;
    let d = Delay::from_nanos(nanos);
    assert_eq!(d.ts.tv_sec, 2);
    assert_eq!(d.ts.tv_nsec, 0);
}

#[test]
fn sleep_step_resumes_with_remainder_only() {
    // After an interruption the loop sleeps for exactly the reported
    // remainder, never the full original duration again.
    let rem = TimeSpec { tv_sec: 0, tv_nsec: 250 };
    let step = slowpty::delay::sleep_step(&SleepOutcome::Interrupted(rem));
    assert_eq!(step, SleepStep::Retry(rem));

    assert_eq!(slowpty::delay::sleep_step(&SleepOutcome::Completed), SleepStep::Done);
    assert_eq!(slowpty::delay::sleep_step(&SleepOutcome::Failed), SleepStep::Fail);
}

#[test]
fn interrupted_sleep_still_covers_full_duration() {
    let d = Delay::from_nanos(1000);
    let outcomes = vec![
        SleepOutcome::Interrupted(TimeSpec { tv_sec: 0, tv_nsec: 600 }),
        SleepOutcome::Interrupted(TimeSpec { tv_sec: 0, tv_nsec: 100 }),
        SleepOutcome::Completed,
    ];
    let run = d.sleep_through(&outcomes);
    assert_eq!(run.end, SleepEnd::Finished);
    assert!(run.min_elapsed_ns >= 1000);
}

#[test]
fn uninterrupted_sleep_covers_full_duration() {
    let d = Delay::from_nanos(123_456);
    let run = d.sleep_through(&vec![SleepOutcome::Completed]);
    assert_eq!(run.end, SleepEnd::Finished);
    assert_eq!(run.min_elapsed_ns, 123_456);
}

#[test]
fn failed_sleep_reports_error_end() {
    let d = Delay::from_nanos(1000);
    let outcomes = vec![
        SleepOutcome::Interrupted(TimeSpec { tv_sec: 0, tv_nsec: 700 }),
        SleepOutcome::Failed,
    ];
    let run = d.sleep_through(&outcomes);
    assert_eq!(run.end, SleepEnd::Errored);
    // The first call still slept at least the part it did not report back.
    assert!(run.min_elapsed_ns >= 300);
}
