//! Readiness bookkeeping over the two endpoints of the relay: the console
//! and the pty master.
//!
//! The binary registers both endpoints with the OS readiness-polling
//! facility and blocks on it; what it gets back is a batch of events, each
//! naming an endpoint and whether it was readable or hung up. This module
//! holds the decisions: which events end the session, which set an
//! endpoint's readiness bit, which direction each endpoint index stands for,
//! and when the loop may block again.

use vstd::prelude::*;

verus! {

/// The two byte-stream handles of a session.
#[derive(Clone, Copy, Debug, PartialEq, Eq, Structural)]
pub enum EndpointId {
    /// The invoking user's real console.
    Console,
    /// The master side of the allocated pty.
    PtyMaster,
}

/// One readiness event, as reported by the OS polling facility for a
/// registered endpoint.
#[derive(Clone, Copy, Debug, PartialEq, Eq, Structural)]
pub struct PollEvent {
    /// Which endpoint the event is for: 0 = console, 1 = pty master.
    pub index: usize,
    /// The endpoint has bytes to read.
    pub readable: bool,
    /// The peer closed its end.
    pub read_closed: bool,
}

/// What a blocking wait for readiness concluded.
#[derive(Clone, Copy, Debug, PartialEq, Eq, Structural)]
pub enum PollResult {
    /// At least the reported endpoints are ready; carry on.
    Ready,
    /// An endpoint hung up with nothing left to read: the session is over.
    Closed,
}

/// One direction of the relay: a named source and where its bytes go.
#[derive(Clone, Copy, Debug)]
pub struct PollEndpoint {
    pub name: &'static str,
    pub src: EndpointId,
    pub dst: EndpointId,
}

/// An event is terminal when the peer hung up and nothing is left to drain.
/// A half-closed endpoint that is still readable is not terminal: it must
/// still be drained.
pub open spec fn event_terminal(e: PollEvent) -> bool {
    e.read_closed && !e.readable
}

/// The readiness bit an endpoint index owns.
pub open spec fn bit_of(idx: int) -> u8 {
    if idx == 0 {
        1
    } else {
        2
    }
}

/// What processing a batch of events does to the readiness bits, and
/// whether it ends the session: events are taken in order; the first
/// terminal one stops everything, any other event sets its endpoint's bit.
pub open spec fn block_spec(bits: u8, events: Seq<PollEvent>) -> (u8, PollResult)
    decreases events.len(),
{
    if events.len() == 0 {
        (bits, PollResult::Ready)
    } else if event_terminal(events[0]) {
        (bits, PollResult::Closed)
    } else {
        block_spec(bits | bit_of(events[0].index as int), events.drop_first())
    }
}

/// Session-ending law of the blocking wait: digesting a batch of events
/// reports `Closed` exactly when some event in the batch is terminal, that
/// is, reports a hang-up with nothing left to read.
pub proof fn lemma_block_closed_iff(bits: u8, events: Seq<PollEvent>)
    ensures
        block_spec(bits, events).1 is Closed <==> exists|i: int|
            0 <= i < events.len() && event_terminal(#[trigger] events[i]),
    decreases events.len(),
{
    if events.len() == 0 {
    } else if event_terminal(events[0]) {
        assert(event_terminal(events[0]));
    } else {
        let rest = events.drop_first();
        lemma_block_closed_iff(bits | bit_of(events[0].index as int), rest);
        assert(forall|i: int| 0 <= i < rest.len() ==> #[trigger] rest[i] == events[i + 1]);
        if exists|i: int| 0 <= i < events.len() && event_terminal(#[trigger] events[i]) {
            let i = choose|i: int| 0 <= i < events.len() && event_terminal(#[trigger] events[i]);
            assert(rest[i - 1] == events[i]);
        }
    }
}

/// Tracks which endpoints are known readable since they were last drained.
///
/// The bits only gate whether the relay loop may block: once anything is
/// readable, the loop attempts both endpoints every iteration, so a
/// continuously readable direction cannot starve an intermittent one.
pub struct ReadableSet {
    pub bits: u8,
}

impl ReadableSet {
    /// Only the two low bits are ever used.
    pub open spec fn wf(self) -> bool {
        self.bits < 4
    }

    /// Whether endpoint `idx` is marked readable.
    pub open spec fn has(self, idx: int) -> bool {
        self.bits & bit_of(idx) != 0
    }

    /// A fresh set: nothing is known readable yet.
    pub fn new() -> (r: Self)
        ensures
            r.bits == 0,
            r.wf(),
            !r.has(0) && !r.has(1),
    {
        let r = ReadableSet { bits: 0 };
        proof {
            assert(0u8 & 1u8 == 0 && 0u8 & 2u8 == 0) by (bit_vector);
        }
        r
    }

    /// True when no endpoint is currently known readable, so the loop
    /// should block rather than busy-poll.
    pub fn is_empty(&self) -> (r: bool)
        requires
            self.wf(),
        ensures
            r <==> self.bits == 0,
            r <==> (!self.has(0) && !self.has(1)),
    {
        proof {
            let b = self.bits;
            assert(b < 4 ==> ((b == 0) <==> (b & 1u8 == 0 && b & 2u8 == 0))) by (bit_vector);
        }
        self.bits == 0
    }

    /// Digests one batch of readiness events, exactly as [`block_spec`]
    /// says: the first terminal event ends the session with `Closed`, every
    /// other event marks its endpoint readable.
    pub fn block(&mut self, events: &Vec<PollEvent>) -> (r: PollResult)
        requires
            old(self).wf(),
            forall|i: int| 0 <= i < events@.len() ==> #[trigger] events@[i].index < 2,
        ensures
            (final(self).bits, r) == block_spec(old(self).bits, events@),
            final(self).wf(),
    {
        let ghost orig_bits = old(self).bits;
        let mut i: usize = 0;
        proof {
            assert(events@.skip(0) =~= events@);
        }
        while i < events.len()
            invariant_except_break
                i <= events@.len(),
                self.wf(),
                forall|j: int| 0 <= j < events@.len() ==> #[trigger] events@[j].index < 2,
                block_spec(orig_bits, events@) == block_spec(self.bits, events@.skip(i as int)),
            ensures
                self.wf(),
                i <= events@.len(),
                i < events@.len() ==> (self.bits, PollResult::Closed) == block_spec(
                    orig_bits,
                    events@,
                ),
                i == events@.len() ==> (self.bits, PollResult::Ready) == block_spec(
                    orig_bits,
                    events@,
                ),
            decreases events@.len() - i,
        {
            let e = events[i];
            proof {
                assert(events@.skip(i as int)[0] == events@[i as int]);
                assert(events@.skip(i as int).drop_first() =~= events@.skip(i + 1));
            }
            if e.read_closed && !e.readable {
                break;
            }
            let mask: u8 = if e.index == 0 {
                1
            } else {
                2
            };
            proof {
                let b = self.bits;
                assert(b < 4 ==> (b | 1u8) < 4 && (b | 2u8) < 4) by (bit_vector);
            }
            self.bits = self.bits | mask;
            i = i + 1;
        }
        if i < events.len() {
            PollResult::Closed
        } else {
            PollResult::Ready
        }
    }

    /// The direction endpoint `idx` drives: index 0 forwards console bytes
    /// into the pty, index 1 forwards pty bytes back to the console.
    pub fn endpoint(&self, idx: usize) -> (r: Option<PollEndpoint>)
        ensures
            r is Some <==> idx < 2,
            idx == 0 ==> (r matches Some(ep) && ep.name@ == "console"@
                && ep.src == EndpointId::Console && ep.dst == EndpointId::PtyMaster),
            idx == 1 ==> (r matches Some(ep) && ep.name@ == "pty"@
                && ep.src == EndpointId::PtyMaster && ep.dst == EndpointId::Console),
    {
        match idx {
            0 => Some(PollEndpoint {
                name: "console",
                src: EndpointId::Console,
                dst: EndpointId::PtyMaster,
            }),
            1 => Some(PollEndpoint {
                name: "pty",
                src: EndpointId::PtyMaster,
                dst: EndpointId::Console,
            }),
            _ => None,
        }
    }

    /// Clears endpoint `idx`'s readiness bit once it has been drained to
    /// would-block for this iteration; the other endpoint's bit is kept.
    pub fn unset(&mut self, index: usize)
        requires
            old(self).wf(),
            index < 2,
        ensures
            final(self).bits == old(self).bits & !bit_of(index as int),
            final(self).wf(),
            !final(self).has(index as int),
            final(self).has(1 - index as int) == old(self).has(1 - index as int),
    {
        let mask: u8 = if index == 0 {
            1
        } else {
            2
        };
        proof {
            let b = self.bits;
            assert(b < 4 ==> (b & !1u8) < 4 && (b & !2u8) < 4) by (bit_vector);
            assert((b & !1u8) & 1u8 == 0 && (b & !2u8) & 2u8 == 0) by (bit_vector);
            assert(((b & !1u8) & 2u8 == b & 2u8) && ((b & !2u8) & 1u8 == b & 1u8)) by (bit_vector);
        }
        self.bits = self.bits & !mask;
    }
}

} // verus!
