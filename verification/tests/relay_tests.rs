use slowpty::readable::PollEvent;
use slowpty::relay::{run_relay, EndReason, ReadOutcome, WriteUnit, ESC};

fn ready(index: usize) -> PollEvent {
    PollEvent { index, readable: true, read_closed: false }
}

fn hangup(index: usize) -> PollEvent {
    PollEvent { index, readable: false, read_closed: true }
}

fn flatten(units: &[WriteUnit]) -> Vec<u8> {
    let mut out = Vec::new();
    for u in units {
        match *u {
            WriteUnit::Single(b) => out.push(b),
            WriteUnit::Pair(a, b) => {
                out.push(a);
                out.push(b);
            }
        }
    }
    out
}

#[test]
fn bytes_arrive_in_order() {
    // A known sequence written at the console source arrives at the pty
    // destination in order, then the clean end of stream stops the session.
    let console = vec![
        ReadOutcome::Byte(10),
        ReadOutcome::Byte(20),
        ReadOutcome::Byte(30),
        ReadOutcome::Eof,
    ];
    let pty = vec![ReadOutcome::WouldBlock];
    let polls = vec![vec![ready(0)]];
    let run = run_relay(console, pty, polls);
    assert_eq!(flatten(&run.to_pty), vec![10, 20, 30]);
    assert_eq!(run.end, EndReason::CleanEof);
}

#[test]
fn one_sleep_per_iteration_even_full_duplex() {
    // Both directions move a byte within the same cycle and still cost a
    // single delay per outer iteration.
    let console = vec![ReadOutcome::Byte(1)];
    let pty = vec![ReadOutcome::Byte(2)];
    let polls = vec![vec![ready(0), ready(1)]];
    let run = run_relay(console, pty, polls);
    assert_eq!(flatten(&run.to_pty), vec![1]);
    assert_eq!(flatten(&run.to_console), vec![2]);
    assert_eq!(run.sleeps, run.iterations);
    // First iteration forwards one byte in each direction, second drains
    // both to would-block; each slept exactly once.
    assert_eq!(run.sleeps, 2);
    // Pacing: never more than one write unit per direction per iteration.
    assert!(run.to_pty.len() <= run.iterations + 1);
    assert!(run.to_console.len() <= run.iterations + 1);
}

#[test]
fn escape_byte_coalesced_with_follower() {
    let console = vec![ReadOutcome::Byte(ESC), ReadOutcome::Byte(0x5B), ReadOutcome::Eof];
    let pty = vec![];
    let polls = vec![vec![ready(0)]];
    let run = run_relay(console, pty, polls);
    assert_eq!(run.to_pty, vec![WriteUnit::Pair(ESC, 0x5B)]);
    assert_eq!(run.end, EndReason::CleanEof);
}

#[test]
fn lone_escape_goes_out_alone() {
    // Nothing immediately follows the ESC: it is written as one single-byte
    // unit, not held back.
    let console = vec![ReadOutcome::Byte(ESC), ReadOutcome::WouldBlock, ReadOutcome::Eof];
    let pty = vec![];
    let polls = vec![vec![ready(0)]];
    let run = run_relay(console, pty, polls);
    assert_eq!(run.to_pty, vec![WriteUnit::Single(ESC)]);
    assert_eq!(run.end, EndReason::CleanEof);
}

#[test]
fn escape_before_end_of_stream_goes_out_alone() {
    let console = vec![ReadOutcome::Byte(ESC), ReadOutcome::Eof];
    let pty = vec![];
    let polls = vec![vec![ready(0)]];
    let run = run_relay(console, pty, polls);
    assert_eq!(run.to_pty, vec![WriteUnit::Single(ESC)]);
    assert_eq!(run.end, EndReason::CleanEof);
}

#[test]
fn intermittent_endpoint_not_starved() {
    // Endpoint A (console) is continuously readable; endpoint B (pty) has
    // one byte. B's byte goes out within the first iteration, not after A
    // has been drained.
    let console = vec![
        ReadOutcome::Byte(1),
        ReadOutcome::Byte(2),
        ReadOutcome::Byte(3),
        ReadOutcome::Byte(4),
        ReadOutcome::Byte(5),
        ReadOutcome::Eof,
    ];
    let pty = vec![ReadOutcome::Byte(99)];
    let polls = vec![vec![ready(0), ready(1)]];
    let run = run_relay(console, pty, polls);
    assert_eq!(run.to_console.first(), Some(&WriteUnit::Single(99)));
    // After the very first pass the pty byte is already out.
    assert!(run.iterations >= 1);
    assert_eq!(flatten(&run.to_console), vec![99]);
}

#[test]
fn console_eof_ends_session() {
    let console = vec![ReadOutcome::Eof];
    let pty = vec![ReadOutcome::Byte(7)];
    let polls = vec![vec![ready(0), ready(1)]];
    let run = run_relay(console, pty, polls);
    assert_eq!(run.end, EndReason::CleanEof);
    // The console turn came first and ended the session; nothing slept.
    assert_eq!(run.sleeps, 0);
    assert!(run.to_console.is_empty());
}

#[test]
fn hangup_without_readable_closes_session() {
    let console = vec![ReadOutcome::WouldBlock];
    let pty = vec![];
    let polls = vec![vec![hangup(1)]];
    let run = run_relay(console, pty, polls);
    assert_eq!(run.end, EndReason::Closed);
    assert!(run.to_pty.is_empty());
    assert!(run.to_console.is_empty());
}

#[test]
fn half_closed_but_readable_still_drained() {
    // A hang-up that still reports readable is not terminal: the remaining
    // byte must be drained first.
    let console = vec![ReadOutcome::WouldBlock, ReadOutcome::WouldBlock];
    let pty = vec![ReadOutcome::Byte(42), ReadOutcome::Eof];
    let polls = vec![vec![PollEvent { index: 1, readable: true, read_closed: true }]];
    let run = run_relay(console, pty, polls);
    assert_eq!(flatten(&run.to_console), vec![42]);
    assert_eq!(run.end, EndReason::CleanEof);
}

#[test]
fn device_error_ends_session_quietly() {
    let console = vec![ReadOutcome::Byte(5), ReadOutcome::DeviceGone];
    let pty = vec![];
    let polls = vec![vec![ready(0)]];
    let run = run_relay(console, pty, polls);
    assert_eq!(flatten(&run.to_pty), vec![5]);
    assert_eq!(run.end, EndReason::DeviceError);
}

#[test]
fn fatal_read_reported() {
    let console = vec![ReadOutcome::Fatal];
    let pty = vec![];
    let polls = vec![vec![ready(0)]];
    let run = run_relay(console, pty, polls);
    assert_eq!(run.end, EndReason::FatalRead);
}

#[test]
fn exhausted_polls_read_as_closed() {
    let console = vec![];
    let pty = vec![];
    let polls = vec![];
    let run = run_relay(console, pty, polls);
    assert_eq!(run.end, EndReason::Closed);
    assert_eq!(run.sleeps, 0);
}
