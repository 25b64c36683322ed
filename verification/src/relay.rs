//! The byte-forwarding relay between the console and the pty master.
//!
//! Each outer iteration of the relay blocks until something is readable (if
//! nothing is), then attempts exactly one byte read from *both* endpoints —
//! whatever the readiness bits say — forwards what arrived, clears the bits
//! of endpoints that had nothing, and sleeps one rate-limiter delay. An ESC
//! byte is coalesced with an immediately following byte into one two-byte
//! write, so receivers cannot misread a bare ESC as an isolated keypress.
//!
//! The decisions of the loop are plain functions here ([`decide_read`],
//! [`decide_second`]); the binary applies them to the outcomes of real
//! reads. [`run_relay`] runs the whole loop over in-memory scripted
//! endpoints, which pins down the loop's observable behaviour: bytes arrive
//! in order, both directions are attempted every iteration, and one delay is
//! slept per completed iteration.

use vstd::prelude::*;

use crate::readable::{event_terminal, lemma_block_closed_iff, PollEvent, PollResult, ReadableSet};

verus! {

/// The escape control byte that opens terminal escape sequences.
pub const ESC: u8 = 0x1B;

/// The outcome of attempting a single-byte read at an endpoint.
#[derive(Clone, Copy, Debug, PartialEq, Eq, Structural)]
pub enum ReadOutcome {
    /// The read returned one byte.
    Byte(u8),
    /// The read returned zero bytes: clean end of stream.
    Eof,
    /// The read failed with the would-block error: nothing available now.
    WouldBlock,
    /// The read failed with the device-error class (benign on some teardown
    /// paths): treated as session end.
    DeviceGone,
    /// The read failed with any other error: fatal.
    Fatal,
}

/// One unit handed to a destination: a single byte, or a coalesced pair.
#[derive(Clone, Copy, Debug, PartialEq, Eq, Structural)]
pub enum WriteUnit {
    Single(u8),
    Pair(u8, u8),
}

/// Why a relay session ended.
#[derive(Clone, Copy, Debug, PartialEq, Eq, Structural)]
pub enum EndReason {
    /// An endpoint reported a clean zero-byte end of stream.
    CleanEof,
    /// An endpoint failed with the device-error class.
    DeviceError,
    /// The blocking wait reported an endpoint hung up with nothing to read.
    Closed,
    /// A read failed with a fatal error.
    FatalRead,
}

/// What the relay does with the outcome of the first read at an endpoint.
#[derive(Clone, Copy, Debug, PartialEq, Eq, Structural)]
pub enum ReadDecision {
    /// Forward this byte as a single-byte write.
    Forward(u8),
    /// The byte is ESC: attempt one more immediate read before writing.
    TryCoalesce,
    /// Nothing to read now: clear this endpoint's readiness bit.
    MarkIdle,
    /// The session is over, for the given reason.
    End(EndReason),
}

/// The decision taken on a first read's outcome.
pub open spec fn spec_decide_read(o: ReadOutcome) -> ReadDecision {
    match o {
        ReadOutcome::Byte(b) => if b == ESC {
            ReadDecision::TryCoalesce
        } else {
            ReadDecision::Forward(b)
        },
        ReadOutcome::Eof => ReadDecision::End(EndReason::CleanEof),
        ReadOutcome::WouldBlock => ReadDecision::MarkIdle,
        ReadOutcome::DeviceGone => ReadDecision::End(EndReason::DeviceError),
        ReadOutcome::Fatal => ReadDecision::End(EndReason::FatalRead),
    }
}

/// Classifies the outcome of the one-byte read that opens an endpoint's
/// turn: a byte is forwarded (ESC first tries to coalesce), would-block
/// idles the endpoint, a clean end of stream or a device-class error ends
/// the session, anything else is fatal.
pub fn decide_read(outcome: ReadOutcome) -> (r: ReadDecision)
    ensures
        r == spec_decide_read(outcome),
{
    match outcome {
        ReadOutcome::Byte(b) => {
            if b == ESC {
                ReadDecision::TryCoalesce
            } else {
                ReadDecision::Forward(b)
            }
        }
        ReadOutcome::Eof => ReadDecision::End(EndReason::CleanEof),
        ReadOutcome::WouldBlock => ReadDecision::MarkIdle,
        ReadOutcome::DeviceGone => ReadDecision::End(EndReason::DeviceError),
        ReadOutcome::Fatal => ReadDecision::End(EndReason::FatalRead),
    }
}

/// The unit written after an ESC byte tried to coalesce.
pub open spec fn spec_decide_second(o: ReadOutcome) -> WriteUnit {
    match o {
        ReadOutcome::Byte(b2) => WriteUnit::Pair(ESC, b2),
        _ => WriteUnit::Single(ESC),
    }
}

/// Decides what an ESC byte becomes once the optimistic second read has
/// answered: if a byte arrived immediately, both go out as one two-byte
/// unit; on anything else the ESC goes out alone (errors of the second read
/// are swallowed — the first read will see them again next iteration).
pub fn decide_second(outcome: ReadOutcome) -> (r: WriteUnit)
    ensures
        r == spec_decide_second(outcome),
{
    match outcome {
        ReadOutcome::Byte(b2) => WriteUnit::Pair(ESC, b2),
        _ => WriteUnit::Single(ESC),
    }
}

/// An outcome that, once reached, an endpoint keeps reporting: end of
/// stream and the two error classes persist on a real descriptor.
pub open spec fn sticky(o: ReadOutcome) -> bool {
    o is Eof || o is DeviceGone || o is Fatal
}

/// What a read at position `pos` of a script returns: the entry there, or
/// would-block once the script is exhausted.
pub open spec fn outcome_at(events: Seq<ReadOutcome>, pos: int) -> ReadOutcome {
    if 0 <= pos < events.len() {
        events[pos]
    } else {
        ReadOutcome::WouldBlock
    }
}

/// Where the script cursor stands after one read at `pos`: ordinary entries
/// are consumed, sticky ones and the exhausted tail are not.
pub open spec fn next_pos(events: Seq<ReadOutcome>, pos: int) -> int {
    if 0 <= pos < events.len() && !sticky(events[pos]) {
        pos + 1
    } else {
        pos
    }
}

/// An in-memory endpoint source: a script of read outcomes handed out in
/// order. It stands in for a real descriptor when the relay loop is run
/// under test, so the loop's behaviour can be pinned down byte by byte.
pub struct ScriptSource {
    pub events: Vec<ReadOutcome>,
    pub pos: usize,
}

impl ScriptSource {
    /// The cursor never passes the end of the script.
    pub open spec fn wf(self) -> bool {
        self.pos <= self.events@.len()
    }

    /// How many entries are still ahead of the cursor.
    pub open spec fn remaining(self) -> int {
        self.events@.len() - self.pos
    }

    /// A source at the start of the given script.
    pub fn new(events: Vec<ReadOutcome>) -> (r: Self)
        ensures
            r.events == events,
            r.pos == 0,
            r.wf(),
    {
        ScriptSource { events, pos: 0 }
    }

    /// One read: returns the entry under the cursor (would-block when the
    /// script is over) and consumes it unless it is sticky.
    pub fn read_one(&mut self) -> (r: ReadOutcome)
        requires
            old(self).wf(),
        ensures
            final(self).wf(),
            final(self).events == old(self).events,
            r == outcome_at(old(self).events@, old(self).pos as int),
            final(self).pos == next_pos(old(self).events@, old(self).pos as int),
    {
        if self.pos < self.events.len() {
            let ev = self.events[self.pos];
            match ev {
                ReadOutcome::Eof => (),
                ReadOutcome::DeviceGone => (),
                ReadOutcome::Fatal => (),
                _ => {
                    self.pos = self.pos + 1;
                }
            }
            ev
        } else {
            ReadOutcome::WouldBlock
        }
    }
}

/// The outcome of one endpoint's turn within a relay iteration.
#[derive(Clone, Copy, Debug, PartialEq, Eq, Structural)]
pub enum ForwardOutcome {
    /// A write unit went out to the destination.
    Wrote,
    /// Nothing was available: the endpoint's readiness bit should be
    /// cleared.
    Idle,
    /// The session is over, for the given reason.
    Ended(EndReason),
}

/// The outcome of one endpoint's turn taken at position `pos` of a script.
pub open spec fn fwd_result(events: Seq<ReadOutcome>, pos: int) -> ForwardOutcome {
    match outcome_at(events, pos) {
        ReadOutcome::Byte(b) => ForwardOutcome::Wrote,
        ReadOutcome::Eof => ForwardOutcome::Ended(EndReason::CleanEof),
        ReadOutcome::WouldBlock => ForwardOutcome::Idle,
        ReadOutcome::DeviceGone => ForwardOutcome::Ended(EndReason::DeviceError),
        ReadOutcome::Fatal => ForwardOutcome::Ended(EndReason::FatalRead),
    }
}

/// Where the cursor stands after one endpoint's turn: a plain byte consumes
/// one entry, an ESC byte also consumes the optimistic second read's entry,
/// and sticky outcomes consume nothing.
pub open spec fn fwd_newpos(events: Seq<ReadOutcome>, pos: int) -> int {
    match outcome_at(events, pos) {
        ReadOutcome::Byte(b) => if b == ESC {
            next_pos(events, next_pos(events, pos))
        } else {
            next_pos(events, pos)
        },
        ReadOutcome::WouldBlock => next_pos(events, pos),
        _ => pos,
    }
}

/// The write units one endpoint's turn sends to its destination: at most
/// one unit, a coalesced pair exactly when an ESC is immediately followed
/// by another available byte.
pub open spec fn fwd_units(events: Seq<ReadOutcome>, pos: int) -> Seq<WriteUnit> {
    match outcome_at(events, pos) {
        ReadOutcome::Byte(b) => if b == ESC {
            match outcome_at(events, pos + 1) {
                ReadOutcome::Byte(b2) => seq![WriteUnit::Pair(ESC, b2)],
                _ => seq![WriteUnit::Single(ESC)],
            }
        } else {
            seq![WriteUnit::Single(b)]
        },
        _ => Seq::<WriteUnit>::empty(),
    }
}

/// Takes one endpoint's turn: reads once from `src`, coalesces after an
/// ESC, and appends the resulting unit (if any) to `out`, exactly as
/// [`fwd_result`], [`fwd_newpos`] and [`fwd_units`] describe.
pub fn forward_one(src: &mut ScriptSource, out: &mut Vec<WriteUnit>) -> (r: ForwardOutcome)
    requires
        old(src).wf(),
    ensures
        final(src).wf(),
        final(src).events == old(src).events,
        r == fwd_result(old(src).events@, old(src).pos as int),
        final(src).pos == fwd_newpos(old(src).events@, old(src).pos as int),
        final(out)@ == old(out)@ + fwd_units(old(src).events@, old(src).pos as int),
{
    let ghost ev0 = old(src).events@;
    let ghost p0 = old(src).pos as int;
    let first = src.read_one();
    match decide_read(first) {
        ReadDecision::Forward(b) => {
            out.push(WriteUnit::Single(b));
            proof {
                assert(out@ =~= old(out)@ + fwd_units(ev0, p0));
            }
            ForwardOutcome::Wrote
        }
        ReadDecision::TryCoalesce => {
            let second = src.read_one();
            let unit = decide_second(second);
            out.push(unit);
            proof {
                assert(out@ =~= old(out)@ + fwd_units(ev0, p0));
            }
            ForwardOutcome::Wrote
        }
        ReadDecision::MarkIdle => {
            proof {
                assert(out@ =~= old(out)@ + fwd_units(ev0, p0));
            }
            ForwardOutcome::Idle
        }
        ReadDecision::End(reason) => {
            proof {
                assert(out@ =~= old(out)@ + fwd_units(ev0, p0));
            }
            ForwardOutcome::Ended(reason)
        }
    }
}

/// The bytes a write unit carries, in order.
pub open spec fn unit_bytes(u: WriteUnit) -> Seq<u8> {
    match u {
        WriteUnit::Single(b) => seq![b],
        WriteUnit::Pair(a, b) => seq![a, b],
    }
}

/// The bytes a sequence of write units carries, in order.
pub open spec fn units_bytes(us: Seq<WriteUnit>) -> Seq<u8>
    decreases us.len(),
{
    if us.len() == 0 {
        Seq::<u8>::empty()
    } else {
        units_bytes(us.drop_last()) + unit_bytes(us.last())
    }
}

/// The payload one script entry contributes: its byte, or nothing.
pub open spec fn outcome_bytes(o: ReadOutcome) -> Seq<u8> {
    match o {
        ReadOutcome::Byte(b) => seq![b],
        _ => Seq::<u8>::empty(),
    }
}

/// The bytes a script offers, in order.
pub open spec fn script_bytes(events: Seq<ReadOutcome>) -> Seq<u8>
    decreases events.len(),
{
    if events.len() == 0 {
        Seq::<u8>::empty()
    } else {
        script_bytes(events.drop_last()) + outcome_bytes(events.last())
    }
}

proof fn lemma_units_bytes_push(us: Seq<WriteUnit>, u: WriteUnit)
    ensures
        units_bytes(us.push(u)) == units_bytes(us) + unit_bytes(u),
{
    assert(us.push(u).drop_last() =~= us);
    assert(us.push(u).last() == u);
}

proof fn lemma_script_bytes_take_succ(events: Seq<ReadOutcome>, n: int)
    requires
        0 <= n < events.len(),
    ensures
        script_bytes(events.take(n + 1)) == script_bytes(events.take(n)) + outcome_bytes(
            events[n],
        ),
{
    assert(events.take(n + 1).drop_last() =~= events.take(n));
    assert(events.take(n + 1).last() == events[n]);
}

/// Order preservation: if the units written so far carry exactly the bytes
/// of the consumed part of the script, then after one more endpoint turn
/// they still do — every consumed byte goes out, in script order, whether
/// alone or inside a coalesced pair.
pub proof fn lemma_forward_keeps_order(events: Seq<ReadOutcome>, pos: int, units: Seq<WriteUnit>)
    requires
        0 <= pos <= events.len(),
        units_bytes(units) == script_bytes(events.take(pos)),
    ensures
        pos <= fwd_newpos(events, pos) <= events.len(),
        units_bytes(units + fwd_units(events, pos)) == script_bytes(
            events.take(fwd_newpos(events, pos)),
        ),
{
    let newpos = fwd_newpos(events, pos);
    let fu = fwd_units(events, pos);
    match outcome_at(events, pos) {
        ReadOutcome::Byte(b) => {
            if b == ESC {
                match outcome_at(events, pos + 1) {
                    ReadOutcome::Byte(b2) => {
                        assert(newpos == pos + 2);
                        lemma_script_bytes_take_succ(events, pos);
                        lemma_script_bytes_take_succ(events, pos + 1);
                        assert(units + fu =~= units.push(WriteUnit::Pair(ESC, b2)));
                        lemma_units_bytes_push(units, WriteUnit::Pair(ESC, b2));
                        assert(units_bytes(units + fu) =~= script_bytes(events.take(newpos)));
                    }
                    _ => {
                        lemma_script_bytes_take_succ(events, pos);
                        assert(units + fu =~= units.push(WriteUnit::Single(ESC)));
                        lemma_units_bytes_push(units, WriteUnit::Single(ESC));
                        if newpos == pos + 2 {
                            lemma_script_bytes_take_succ(events, pos + 1);
                        }
                        assert(units_bytes(units + fu) =~= script_bytes(events.take(newpos)));
                    }
                }
            } else {
                assert(newpos == pos + 1);
                lemma_script_bytes_take_succ(events, pos);
                assert(units + fu =~= units.push(WriteUnit::Single(b)));
                lemma_units_bytes_push(units, WriteUnit::Single(b));
                assert(units_bytes(units + fu) =~= script_bytes(events.take(newpos)));
            }
        }
        ReadOutcome::WouldBlock => {
            assert(units + fu =~= units);
            if newpos == pos + 1 {
                lemma_script_bytes_take_succ(events, pos);
            }
            assert(units_bytes(units + fu) =~= script_bytes(events.take(newpos)));
        }
        _ => {
            assert(units + fu =~= units);
        }
    }
}

/// Escape coalescing, first half: an ESC byte immediately followed by
/// another available byte is forwarded as exactly one two-byte unit.
pub proof fn lemma_coalesce_pair(events: Seq<ReadOutcome>, pos: int, b2: u8)
    requires
        outcome_at(events, pos) == ReadOutcome::Byte(ESC),
        outcome_at(events, pos + 1) == ReadOutcome::Byte(b2),
    ensures
        fwd_units(events, pos) =~= seq![WriteUnit::Pair(ESC, b2)],
        fwd_result(events, pos) is Wrote,
{
}

/// Escape coalescing, second half: an ESC byte with nothing immediately
/// available behind it is forwarded as exactly one single-byte unit.
pub proof fn lemma_coalesce_lone(events: Seq<ReadOutcome>, pos: int)
    requires
        outcome_at(events, pos) == ReadOutcome::Byte(ESC),
        !(outcome_at(events, pos + 1) is Byte),
    ensures
        fwd_units(events, pos) =~= seq![WriteUnit::Single(ESC)],
        fwd_result(events, pos) is Wrote,
{
}

/// Fairness at the byte level: whenever an endpoint's source has a byte
/// under its cursor, taking that endpoint's turn forwards a unit that
/// begins with exactly that byte — readiness of the other endpoint never
/// enters the decision.
pub proof fn lemma_ready_byte_forwarded(events: Seq<ReadOutcome>, pos: int, b: u8)
    requires
        outcome_at(events, pos) == ReadOutcome::Byte(b),
    ensures
        fwd_result(events, pos) is Wrote,
        fwd_units(events, pos).len() == 1,
        unit_bytes(fwd_units(events, pos)[0])[0] == b,
{
}

/// What one full pass over both endpoints concluded.
#[derive(Clone, Copy, Debug)]
pub struct PassResult {
    /// The session is over, for this reason, and the pass stopped there.
    pub end: Option<EndReason>,
    /// The console source had nothing: clear its readiness bit.
    pub idle_console: bool,
    /// The pty source had nothing: clear its readiness bit.
    pub idle_pty: bool,
}

/// One fairness pass of the relay: both endpoints get their turn, console
/// first, no matter which of them was reported readable — only a session
/// end at the console's turn stops the pty's turn from being taken. This is
/// what keeps a continuously readable endpoint from starving an
/// intermittently readable one.
pub fn relay_pass(
    console: &mut ScriptSource,
    pty: &mut ScriptSource,
    to_pty: &mut Vec<WriteUnit>,
    to_console: &mut Vec<WriteUnit>,
) -> (r: PassResult)
    requires
        old(console).wf(),
        old(pty).wf(),
    ensures
        final(console).wf(),
        final(pty).wf(),
        final(console).events == old(console).events,
        final(pty).events == old(pty).events,
        final(console).pos == fwd_newpos(old(console).events@, old(console).pos as int),
        final(to_pty)@ == old(to_pty)@ + fwd_units(old(console).events@, old(console).pos as int),
        fwd_result(old(console).events@, old(console).pos as int) matches ForwardOutcome::Ended(
            why,
        ) ==> {
            &&& r.end == Some(why)
            &&& *final(pty) == *old(pty)
            &&& *final(to_console) == *old(to_console)
        },
        !(fwd_result(old(console).events@, old(console).pos as int) is Ended) ==> {
            &&& final(pty).pos == fwd_newpos(old(pty).events@, old(pty).pos as int)
            &&& final(to_console)@ == old(to_console)@ + fwd_units(
                old(pty).events@,
                old(pty).pos as int,
            )
            &&& (fwd_result(old(pty).events@, old(pty).pos as int) matches ForwardOutcome::Ended(
                why,
            ) ==> r.end == Some(why))
            &&& (!(fwd_result(old(pty).events@, old(pty).pos as int) is Ended) ==> {
                &&& r.end is None
                &&& r.idle_console == (fwd_result(old(console).events@, old(console).pos as int)
                    is Idle)
                &&& r.idle_pty == (fwd_result(old(pty).events@, old(pty).pos as int) is Idle)
            })
        },
{
    let f0 = forward_one(console, to_pty);
    let idle_console = match f0 {
        ForwardOutcome::Ended(why) => {
            return PassResult { end: Some(why), idle_console: false, idle_pty: false };
        }
        ForwardOutcome::Idle => true,
        ForwardOutcome::Wrote => false,
    };
    let f1 = forward_one(pty, to_console);
    let idle_pty = match f1 {
        ForwardOutcome::Ended(why) => {
            return PassResult { end: Some(why), idle_console: false, idle_pty: false };
        }
        ForwardOutcome::Idle => true,
        ForwardOutcome::Wrote => false,
    };
    PassResult { end: None, idle_console, idle_pty }
}

/// A completed run of the relay loop over scripted endpoints: everything
/// the loop wrote, how often it slept, and why it stopped.
#[derive(Debug)]
pub struct RelayRun {
    /// Units written towards the pty (bytes read at the console).
    pub to_pty: Vec<WriteUnit>,
    /// Units written towards the console (bytes read at the pty).
    pub to_console: Vec<WriteUnit>,
    /// How many rate-limiter delays the loop slept.
    pub sleeps: usize,
    /// How many full iterations the loop completed.
    pub iterations: usize,
    /// How many script entries the console source handed out.
    pub console_consumed: usize,
    /// How many script entries the pty source handed out.
    pub pty_consumed: usize,
    /// How many poll batches the blocking waits digested.
    pub polls_consumed: usize,
    /// Why the session ended.
    pub end: EndReason,
}

/// Runs the whole relay loop over scripted endpoints: `console` and `pty`
/// script the outcomes of the one-byte reads, `polls` scripts the batches
/// the readiness wait hands back (an exhausted poll script reads as the
/// session being closed). The contract is the relay's observable story:
/// every byte consumed from a source reaches its destination in order, the
/// loop sleeps exactly one rate-limiter delay per completed iteration — even
/// when both directions moved a byte within the same iteration — and each
/// direction sends at most one write unit per iteration, so pacing is
/// enforced across both directions combined.
pub fn run_relay(console: Vec<ReadOutcome>, pty: Vec<ReadOutcome>, polls: Vec<Vec<PollEvent>>) -> (r:
    RelayRun)
    requires
        forall|i: int, j: int|
            0 <= i < polls@.len() && 0 <= j < polls@[i].len() ==> (#[trigger] polls@[i][j]).index
                < 2,
        console@.len() + pty@.len() + polls@.len() < 0x1000_0000,
    ensures
        r.console_consumed <= console@.len(),
        r.pty_consumed <= pty@.len(),
        units_bytes(r.to_pty@) == script_bytes(console@.take(r.console_consumed as int)),
        units_bytes(r.to_console@) == script_bytes(pty@.take(r.pty_consumed as int)),
        r.sleeps == r.iterations,
        r.to_pty@.len() <= r.iterations + 1,
        r.to_console@.len() <= r.iterations + 1,
        r.end is CleanEof ==> outcome_at(console@, r.console_consumed as int) is Eof || outcome_at(
            pty@,
            r.pty_consumed as int,
        ) is Eof,
        r.end is DeviceError ==> outcome_at(console@, r.console_consumed as int) is DeviceGone
            || outcome_at(pty@, r.pty_consumed as int) is DeviceGone,
        r.end is FatalRead ==> outcome_at(console@, r.console_consumed as int) is Fatal
            || outcome_at(pty@, r.pty_consumed as int) is Fatal,
        r.polls_consumed <= polls@.len(),
        r.end is Closed ==> (1 <= r.polls_consumed && exists|j: int|
            0 <= j < polls@[r.polls_consumed - 1].len() && event_terminal(
                #[trigger] polls@[r.polls_consumed - 1][j],
            )) || r.polls_consumed == polls@.len(),
{
    let ghost cons0 = console@;
    let ghost pty0 = pty@;
    let ghost total0: int = console@.len() as int + pty@.len() as int + polls@.len() as int;
    let mut src_console = ScriptSource::new(console);
    let mut src_pty = ScriptSource::new(pty);
    let mut poll_i: usize = 0;
    let mut set = ReadableSet::new();
    let mut to_pty: Vec<WriteUnit> = Vec::new();
    let mut to_console: Vec<WriteUnit> = Vec::new();
    let mut sleeps: usize = 0;
    let mut iterations: usize = 0;
    let end: EndReason;
    proof {
        assert(cons0.take(0) =~= Seq::<ReadOutcome>::empty());
        assert(pty0.take(0) =~= Seq::<ReadOutcome>::empty());
    }
    loop
        invariant_except_break
            src_console.wf(),
            src_pty.wf(),
            set.wf(),
            src_console.events@ == cons0,
            src_pty.events@ == pty0,
            poll_i <= polls@.len(),
            forall|i: int, j: int|
                0 <= i < polls@.len() && 0 <= j < polls@[i].len() ==> (#[trigger] polls@[i][j]).index
                    < 2,
            units_bytes(to_pty@) == script_bytes(cons0.take(src_console.pos as int)),
            units_bytes(to_console@) == script_bytes(pty0.take(src_pty.pos as int)),
            sleeps == iterations,
            to_pty@.len() <= iterations,
            to_console@.len() <= iterations,
            total0 < 0x1000_0000,
            iterations <= 2 * (total0 - (src_console.remaining() + src_pty.remaining() + (
            polls@.len() - poll_i))) + (if set.bits == 0 {
                1int
            } else {
                0int
            }),
        ensures
            src_console.wf(),
            src_pty.wf(),
            src_console.events@ == cons0,
            src_pty.events@ == pty0,
            units_bytes(to_pty@) == script_bytes(cons0.take(src_console.pos as int)),
            units_bytes(to_console@) == script_bytes(pty0.take(src_pty.pos as int)),
            sleeps == iterations,
            to_pty@.len() <= iterations + 1,
            to_console@.len() <= iterations + 1,
            poll_i <= polls@.len(),
            end is Closed ==> (1 <= poll_i && exists|j: int|
                0 <= j < polls@[poll_i - 1].len() && event_terminal(
                    #[trigger] polls@[poll_i - 1][j],
                )) || poll_i == polls@.len(),
            end is CleanEof ==> outcome_at(cons0, src_console.pos as int) is Eof || outcome_at(
                pty0,
                src_pty.pos as int,
            ) is Eof,
            end is DeviceError ==> outcome_at(cons0, src_console.pos as int) is DeviceGone
                || outcome_at(pty0, src_pty.pos as int) is DeviceGone,
            end is FatalRead ==> outcome_at(cons0, src_console.pos as int) is Fatal || outcome_at(
                pty0,
                src_pty.pos as int,
            ) is Fatal,
        decreases
                src_console.remaining() + src_pty.remaining() + (polls@.len() - poll_i),
                (if set.bits == 0 {
                    0int
                } else {
                    1int
                }),
    {
        let ghost measure_top: int = src_console.remaining() + src_pty.remaining() + (polls@.len()
            - poll_i);
        let ghost bits_top = set.bits;
        if set.is_empty() {
            if poll_i < polls.len() {
                let res = set.block(&polls[poll_i]);
                poll_i = poll_i + 1;
                match res {
                    PollResult::Closed => {
                        proof {
                            lemma_block_closed_iff(bits_top, polls@[poll_i - 1]@);
                        }
                        end = EndReason::Closed;
                        break;
                    }
                    PollResult::Ready => (),
                }
            } else {
                // No readiness event will ever arrive again: for a scripted
                // run this is the session being over.
                end = EndReason::Closed;
                break;
            }
        }
        let ghost cpos = src_console.pos as int;
        let ghost ppos = src_pty.pos as int;
        let ghost tc0 = to_console@;
        proof {
            lemma_forward_keeps_order(cons0, cpos, to_pty@);
        }
        let pass = relay_pass(&mut src_console, &mut src_pty, &mut to_pty, &mut to_console);
        proof {
            if !(fwd_result(cons0, cpos) is Ended) {
                lemma_forward_keeps_order(pty0, ppos, tc0);
            }
        }
        match pass.end {
            Some(why) => {
                end = why;
                break;
            }
            None => (),
        }
        if pass.idle_console {
            set.unset(0);
        }
        if pass.idle_pty {
            set.unset(1);
        }
        sleeps = sleeps + 1;
        iterations = iterations + 1;
        proof {
            let m_now: int = src_console.remaining() + src_pty.remaining() + (polls@.len()
                - poll_i);
            if m_now == measure_top {
                // Nothing was consumed: both sources must have been
                // exhausted (a byte or an in-range would-block entry always
                // consumes), so both turns came back idle, both bits were
                // just cleared, and the loop will block next time round.
                assert(fwd_result(cons0, cpos) is Idle);
                assert(fwd_result(pty0, ppos) is Idle);
                let b = bits_top;
                assert(b < 4 ==> ((b & !1u8) & !2u8) == 0) by (bit_vector);
            }
        }
    }
    RelayRun {
        to_pty,
        to_console,
        sleeps,
        iterations,
        console_consumed: src_console.pos,
        pty_consumed: src_pty.pos,
        polls_consumed: poll_i,
        end,
    }
}

} // verus!
