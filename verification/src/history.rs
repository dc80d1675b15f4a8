//! The record of what a wipe has put on its device and read back from it.
//!
//! The record exists only in proofs. It lets the contracts say which writes a
//! wipe has issued, in which order, and what the read-back has seen.

use vstd::prelude::*;
use crate::control::{control_wf, next, Control, Phase, Signal, WipePlan};
use crate::outcome::{Verification, WipeOutcome};
use crate::pattern::{all_zero, Pattern};
use crate::schedule::span_len;

verus! {

/// One issued write: where it starts and the bytes it carries.
pub struct WriteRecord {
    pub offset: nat,
    pub data: Seq<u8>,
}

/// Everything a wipe has issued so far.
pub struct History {
    /// The writes of each pass that has covered the device, oldest pass first.
    pub finished: Seq<Seq<WriteRecord>>,
    /// The writes of the pass under way, the one in flight included.
    pub current: Seq<WriteRecord>,
    /// The bytes that verification has read and accepted, from offset 0 on.
    pub read_back: Seq<u8>,
}

/// The first byte beyond what `ops` has written.
pub open spec fn reach(ops: Seq<WriteRecord>) -> nat {
    if ops.len() == 0 {
        0
    } else {
        ops.last().offset + ops.last().data.len()
    }
}

/// `ops` starts at offset 0 and each write begins where the one before ended.
pub open spec fn contiguous(ops: Seq<WriteRecord>) -> bool {
    &&& ops.len() > 0 ==> ops[0].offset == 0
    &&& forall|i: int|
        0 <= i < ops.len() - 1 ==> (#[trigger] ops[i + 1]).offset == ops[i].offset
            + ops[i].data.len()
}

/// The write starts inside the device, carries a full buffer or what is left
/// of the device, and carries zeros when the pattern is `Zero`.
pub open spec fn record_fits(plan: WipePlan, total: nat, r: WriteRecord) -> bool {
    &&& r.offset < total
    &&& r.data.len() == span_len(total, plan.chunk_len as nat, r.offset)
    &&& plan.pattern == Pattern::Zero ==> all_zero(r.data)
}

/// `ops` is the beginning of a pass.
pub open spec fn pass_prefix(plan: WipePlan, total: nat, ops: Seq<WriteRecord>) -> bool {
    &&& contiguous(ops)
    &&& forall|i: int| 0 <= i < ops.len() ==> record_fits(plan, total, #[trigger] ops[i])
}

/// `ops` is one whole pass: it covers the device from offset 0 to its last
/// byte without gap or overlap, and no further.
pub open spec fn full_pass(plan: WipePlan, total: nat, ops: Seq<WriteRecord>) -> bool {
    &&& pass_prefix(plan, total, ops)
    &&& reach(ops) == total
}

/// The history before anything was issued.
pub open spec fn empty_history() -> History {
    History { finished: Seq::empty(), current: Seq::empty(), read_back: Seq::empty() }
}

/// The history after `s` arrives in state `c`, where `buffer` is what the
/// wipe's buffer holds once the transition is made.
///
/// Entering a write appends it to the current pass; the write that completes
/// a pass moves the pass to the finished ones; an accepted chunk is appended
/// to the read-back. Everything else leaves the history alone.
pub open spec fn next_history(
    plan: WipePlan,
    c: Control,
    h: History,
    s: Signal,
    buffer: Seq<u8>,
) -> History {
    let n = next(plan, c, s);
    if n.phase == c.phase {
        h
    } else {
        match n.phase {
            Phase::Writing { written, .. } => History {
                current: h.current.push(
                    WriteRecord {
                        offset: written as nat,
                        data: buffer.subrange(
                            0,
                            span_len(n.total_bytes as nat, plan.chunk_len as nat, written as nat)
                                as int,
                        ),
                    },
                ),
                ..h
            },
            Phase::Flushing { .. } => History {
                finished: h.finished.push(h.current),
                current: Seq::empty(),
                ..h
            },
            _ => match (c.phase, s) {
                (Phase::Verifying { .. }, Signal::Chunk(data)) => if n.phase is Verifying
                    || n.phase == Phase::Done(WipeOutcome::Success) {
                    History { read_back: h.read_back + data, ..h }
                } else {
                    h
                },
                _ => h,
            },
        }
    }
}

/// What the history of a reachable state looks like, phase by phase.
pub open spec fn history_wf(plan: WipePlan, c: Control, h: History, buffer: Seq<u8>) -> bool {
    let total = c.total_bytes as nat;
    &&& forall|p: int| 0 <= p < h.finished.len() ==> full_pass(plan, total, #[trigger] h.finished[p])
    &&& pass_prefix(plan, total, h.current)
    &&& all_zero(h.read_back)
    &&& h.read_back.len() <= total
    &&& match c.phase {
        Phase::Pending | Phase::Opening | Phase::PrecheckFailed(_) => {
            &&& h.finished.len() == 0
            &&& h.current.len() == 0
            &&& h.read_back.len() == 0
        },
        Phase::Writing { pass, written } => {
            &&& h.finished.len() == pass - 1
            &&& h.current.len() > 0
            &&& h.current.last().offset == written
            &&& h.current.last().data == buffer.subrange(
                0,
                span_len(total, plan.chunk_len as nat, written as nat) as int,
            )
            &&& h.read_back.len() == 0
        },
        Phase::Flushing { pass } | Phase::Rewinding { pass } => {
            &&& h.finished.len() == pass
            &&& h.current.len() == 0
            &&& h.read_back.len() == 0
        },
        Phase::Verifying { offset } => {
            &&& plan.verify
            &&& plan.pattern == Pattern::Zero
            &&& h.finished.len() == plan.pass_count
            &&& h.current.len() == 0
            &&& h.read_back.len() == offset
        },
        Phase::Done(outcome) => match outcome {
            WipeOutcome::Success => {
                &&& h.finished.len() == plan.pass_count
                &&& h.current.len() == 0
                &&& match c.verification {
                    Verification::NotRequested => !plan.verify,
                    Verification::Inconclusive => plan.verify && plan.pattern == Pattern::Random,
                    Verification::Confirmed => {
                        &&& plan.verify
                        &&& plan.pattern == Pattern::Zero
                        &&& h.read_back.len() == total
                    },
                }
            },
            WipeOutcome::VerificationFailed(offset) => {
                &&& plan.verify
                &&& plan.pattern == Pattern::Zero
                &&& h.finished.len() == plan.pass_count
                &&& h.current.len() == 0
                &&& h.read_back.len() == offset
                &&& offset < total
            },
            WipeOutcome::IoFailure(_) => h.finished.len() <= plan.pass_count,
            WipeOutcome::PreconditionFailed(_) => false,
        },
    }
}

/// Whether `s` in state `c` starts a write, and thereby a refill of the buffer.
pub open spec fn starts_write(plan: WipePlan, c: Control, s: Signal) -> bool {
    next(plan, c, s).phase is Writing && next(plan, c, s).phase != c.phase
}

/// The invariant is inductive: from a well-formed state, any signal leads to
/// a well-formed state, whatever a random fill put into the buffer.
pub proof fn lemma_transition_keeps_invariant(
    plan: WipePlan,
    c: Control,
    h: History,
    s: Signal,
    before: Seq<u8>,
    after: Seq<u8>,
)
    requires
        control_wf(plan, c),
        history_wf(plan, c, h, before),
        before.len() == plan.chunk_len,
        after.len() == plan.chunk_len,
        starts_write(plan, c, s) && plan.pattern == Pattern::Zero ==> all_zero(after),
        !starts_write(plan, c, s) ==> after == before,
    ensures
        control_wf(plan, next(plan, c, s)),
        history_wf(plan, next(plan, c, s), next_history(plan, c, h, s, after), after),
{
    let n = next(plan, c, s);
    let h2 = next_history(plan, c, h, s, after);
    let total = n.total_bytes as nat;
    let chunk = plan.chunk_len as nat;
    if n.phase == c.phase {
        assert(n == c);
    } else {
        match n.phase {
            Phase::Writing { pass, written } => {
                let len = span_len(total, chunk, written as nat);
                let rec = WriteRecord { offset: written as nat, data: after.subrange(0, len as int) };
                assert(h2.current == h.current.push(rec));
                assert(record_fits(plan, total, rec));
                assert forall|i: int| 0 <= i < h2.current.len() implies record_fits(
                    plan,
                    total,
                    #[trigger] h2.current[i],
                ) by {
                    if i < h.current.len() {
                        assert(h2.current[i] == h.current[i]);
                    }
                }
                assert(contiguous(h2.current)) by {
                    assert forall|i: int| 0 <= i < h2.current.len() - 1 implies (
                    #[trigger] h2.current[i + 1]).offset == h2.current[i].offset
                        + h2.current[i].data.len() by {
                        if i + 1 < h.current.len() {
                            assert(h2.current[i + 1] == h.current[i + 1]);
                            assert(h2.current[i] == h.current[i]);
                        } else {
                            assert(h2.current[i] == h.current.last());
                        }
                    }
                }
                assert(h2.current.last() == rec);
            },
            Phase::Flushing { pass } => {
                assert(h2.finished == h.finished.push(h.current));
                assert forall|p: int| 0 <= p < h2.finished.len() implies full_pass(
                    plan,
                    total,
                    #[trigger] h2.finished[p],
                ) by {
                    if p < h.finished.len() {
                        assert(h2.finished[p] == h.finished[p]);
                    }
                }
            },
            _ => {
                match (c.phase, s) {
                    (Phase::Verifying { offset }, Signal::Chunk(data)) => {
                        if n.phase is Verifying || n.phase == Phase::Done(WipeOutcome::Success) {
                            assert(h2.read_back == h.read_back + data);
                            assert(all_zero(h2.read_back));
                        }
                    },
                    _ => {},
                }
            },
        }
    }
}

} // verus!
