//! What holds of every wipe, whatever the device answers.

use vstd::prelude::*;
use vstd::arithmetic::div_mod::lemma_mod_add_multiples_vanish;
use crate::control::{
    after_last_pass, control_wf, initial_control, next, pending, Control, Phase, Signal, WipePlan,
};
use crate::coverage::{
    bytes_in, lemma_full_pass_count, lemma_pass_offsets, lemma_prefix_bytes,
    lemma_writes_in_full_passes, lemma_zero_passes_image, passes_onto, writes_in,
};
use crate::history::{
    full_pass, lemma_transition_keeps_invariant, record_fits, starts_write, WriteRecord,
};
use crate::machine::{fresh, unseeded, WipeModel};
use crate::outcome::{IoReason, PreconditionReason, Verification, WipeOutcome};
use crate::pattern::{all_zero, zeros, Pattern};
use crate::schedule::{span_count, span_len};

verus! {

/// The state reached from `c` after the signals of `signals`, in order.
pub open spec fn run(plan: WipePlan, c: Control, signals: Seq<Signal>) -> Control
    decreases signals.len(),
{
    if signals.len() == 0 {
        c
    } else {
        run(plan, next(plan, c, signals[0]), signals.drop_first())
    }
}

/// A terminal state absorbs every signal.
pub proof fn law_terminal_is_final(plan: WipePlan, c: Control, signals: Seq<Signal>)
    requires
        c.phase.is_terminal(),
    ensures
        run(plan, c, signals) == c,
    decreases signals.len(),
{
    if signals.len() > 0 {
        law_terminal_is_final(plan, c, signals.drop_first());
    }
}

/// The precondition check: once the oracle reports a device as mounted or in
/// use, the wipe is refused for good. Whatever is signalled afterwards, the
/// state stays `PrecheckFailed`, it is never one of the wiping phases, and the
/// pending action is never a write.
pub proof fn law_busy_device_is_never_wiped(
    plan: WipePlan,
    mounted: bool,
    in_use: bool,
    later: Seq<Signal>,
)
    requires
        mounted || in_use,
    ensures
        ({
            let end = run(
                plan,
                initial_control(),
                seq![Signal::Usage { mounted, in_use }] + later,
            );
            &&& end.phase == Phase::PrecheckFailed(
                if mounted {
                    PreconditionReason::Mounted
                } else {
                    PreconditionReason::InUse
                },
            )
            &&& !end.phase.is_wiping()
            &&& !(pending(plan, end) is Write)
        }),
{
    let first = Signal::Usage { mounted, in_use };
    let signals = seq![first] + later;
    assert(signals[0] == first);
    assert(signals.drop_first() =~= later);
    law_terminal_is_final(plan, next(plan, initial_control(), first), later);
}

/// A wipe that was refused on its precondition has issued no write and no read.
pub proof fn law_refused_wipe_wrote_nothing(m: WipeModel)
    requires
        m.wf(),
        m.control.phase is PrecheckFailed,
    ensures
        m.history.finished.len() == 0,
        m.history.current.len() == 0,
        m.history.read_back.len() == 0,
{
}

/// What a random-fill wipe can never be: reading back, or failed on content.
pub open spec fn never_compares(c: Control) -> bool {
    &&& !(c.phase is Verifying)
    &&& !(c.phase is Done && c.phase->Done_0 is VerificationFailed)
    &&& c.verification != Verification::Confirmed
}

proof fn lemma_random_run_never_compares(plan: WipePlan, c: Control, signals: Seq<Signal>)
    requires
        plan.pattern == Pattern::Random,
        never_compares(c),
    ensures
        never_compares(run(plan, c, signals)),
    decreases signals.len(),
{
    if signals.len() > 0 {
        lemma_random_run_never_compares(plan, next(plan, c, signals[0]), signals.drop_first());
    }
}

/// After a random fill, verification is skipped: no sequence of signals
/// brings the wipe to read the device back or to end in
/// `VerificationFailed`, whatever the device holds. Where such a wipe with
/// verification asked for ends in `Success`, it is marked inconclusive.
pub proof fn law_random_fill_is_never_compared(plan: WipePlan, signals: Seq<Signal>)
    requires
        plan.pattern == Pattern::Random,
    ensures
        ({
            let end = run(plan, initial_control(), signals);
            &&& !(end.phase is Verifying)
            &&& !(pending(plan, end) is Read)
            &&& forall|offset: u64|
                end.phase != Phase::Done(WipeOutcome::VerificationFailed(offset))
            &&& end.phase == Phase::Done(WipeOutcome::Success) && plan.verify ==> end.verification
                == Verification::Inconclusive
        }),
{
    lemma_random_run_never_compares(plan, initial_control(), signals);
    lemma_run_marks_verification(plan, initial_control(), signals);
}

/// How a state accounts for verification: nothing is marked before the wipe
/// has succeeded, and a success after which verification was asked for is
/// marked one way or the other.
pub open spec fn marks_verification(plan: WipePlan, c: Control) -> bool {
    &&& c.verification != Verification::NotRequested ==> c.phase == Phase::Done(
        WipeOutcome::Success,
    )
    &&& c.phase == Phase::Done(WipeOutcome::Success) ==> (c.verification
        == Verification::NotRequested <==> !plan.verify)
}

proof fn lemma_run_marks_verification(plan: WipePlan, c: Control, signals: Seq<Signal>)
    requires
        marks_verification(plan, c),
        c.phase is Verifying ==> plan.verify,
    ensures
        marks_verification(plan, run(plan, c, signals)),
    decreases signals.len(),
{
    if signals.len() > 0 {
        lemma_run_marks_verification(plan, next(plan, c, signals[0]), signals.drop_first());
    }
}

/// A wipe that ended in `Success` has written every pass in full: as many
/// passes as were asked for, each covering the device from its first byte to
/// its last without gap or overlap, each in the same number of writes, and
/// not one write more.
pub proof fn law_success_wrote_every_pass(m: WipeModel)
    requires
        m.wf(),
        m.outcome() == Some(WipeOutcome::Success),
    ensures
        m.history.finished.len() == m.plan.pass_count,
        m.history.current.len() == 0,
        forall|p: int|
            0 <= p < m.plan.pass_count ==> {
                &&& full_pass(m.plan, m.control.total_bytes as nat, #[trigger] m.history.finished[p])
                &&& m.history.finished[p].len() == span_count(
                    m.control.total_bytes as nat,
                    m.plan.chunk_len as nat,
                )
            },
        writes_in(m.history.finished) == m.plan.pass_count * span_count(
            m.control.total_bytes as nat,
            m.plan.chunk_len as nat,
        ),
{
    let total = m.control.total_bytes as nat;
    assert forall|p: int| 0 <= p < m.plan.pass_count implies {
        &&& full_pass(m.plan, total, #[trigger] m.history.finished[p])
        &&& m.history.finished[p].len() == span_count(total, m.plan.chunk_len as nat)
    } by {
        lemma_full_pass_count(m.plan, total, m.history.finished[p]);
    }
    lemma_writes_in_full_passes(m.plan, total, m.history.finished);
}

/// A pass writes exactly as many bytes as the device has, also where the
/// size is no multiple of the buffer: its writes add up to the device's
/// size, the `i`-th starts at `i` buffers, and none reaches beyond the last
/// byte.
pub proof fn law_pass_writes_device_size_exactly(
    plan: WipePlan,
    total: nat,
    ops: Seq<WriteRecord>,
)
    requires
        full_pass(plan, total, ops),
        plan.chunk_len >= 1,
    ensures
        bytes_in(ops) == total,
        forall|i: int|
            0 <= i < ops.len() ==> {
                &&& (#[trigger] ops[i]).offset == i * plan.chunk_len
                &&& ops[i].data.len() == span_len(total, plan.chunk_len as nat, ops[i].offset)
                &&& ops[i].offset + ops[i].data.len() <= total
            },
{
    lemma_prefix_bytes(plan, total, ops);
    assert forall|i: int| 0 <= i < ops.len() implies {
        &&& (#[trigger] ops[i]).offset == i * plan.chunk_len
        &&& ops[i].data.len() == span_len(total, plan.chunk_len as nat, ops[i].offset)
        &&& ops[i].offset + ops[i].data.len() <= total
    } by {
        lemma_pass_offsets(plan, total, ops, i);
        assert(record_fits(plan, total, ops[i]));
    }
}

/// While a pass is under way it has never written more than the device
/// holds.
pub proof fn law_pass_stays_inside_device(m: WipeModel)
    requires
        m.wf(),
    ensures
        bytes_in(m.history.current) <= m.control.total_bytes,
{
    lemma_prefix_bytes(m.plan, m.control.total_bytes as nat, m.history.current);
}

/// The reads of a full read-back of `image`, from `offset` on: one chunk per
/// buffer, the last cut down to what is left.
pub open spec fn read_back_signals(image: Seq<u8>, chunk: nat, offset: nat) -> Seq<Signal>
    decreases image.len() - offset,
{
    if offset >= image.len() || chunk == 0 {
        Seq::empty()
    } else {
        let len = span_len(image.len(), chunk, offset);
        seq![Signal::Chunk(image.subrange(offset as int, (offset + len) as int))] + read_back_signals(
            image,
            chunk,
            (offset + len) as nat,
        )
    }
}

/// The state in which a wipe of a device of `total_bytes` bytes stands once
/// its last pass is flushed and rewound.
pub open spec fn verification_start(plan: WipePlan, total_bytes: u64) -> Control {
    after_last_pass(
        plan,
        Control {
            phase: Phase::Rewinding { pass: plan.pass_count },
            opened: true,
            total_bytes,
            verification: Verification::NotRequested,
        },
    )
}

/// The state in which verification ends on a device that holds `image`.
pub open spec fn verify_image(plan: WipePlan, image: Seq<u8>) -> Control {
    run(
        plan,
        verification_start(plan, image.len() as u64),
        read_back_signals(image, plan.chunk_len as nat, 0),
    )
}

/// What a verdict on `image` must say: success only if every byte is zero;
/// failure only at the start of the first chunk that holds a non-zero byte.
pub open spec fn verdict_fits(plan: WipePlan, image: Seq<u8>, end: Control) -> bool {
    match end.phase {
        Phase::Done(WipeOutcome::Success) => all_zero(image) && end.verification
            == Verification::Confirmed,
        Phase::Done(WipeOutcome::VerificationFailed(offset)) => {
            &&& offset < image.len()
            &&& offset as int % plan.chunk_len as int == 0
            &&& all_zero(image.subrange(0, offset as int))
            &&& !all_zero(
                image.subrange(
                    offset as int,
                    offset + span_len(image.len(), plan.chunk_len as nat, offset as nat),
                ),
            )
        },
        _ => false,
    }
}

proof fn lemma_verdict_from(plan: WipePlan, image: Seq<u8>, offset: u64)
    requires
        plan.chunk_len >= 1,
        image.len() <= u64::MAX,
        offset < image.len(),
        offset as int % plan.chunk_len as int == 0,
        all_zero(image.subrange(0, offset as int)),
    ensures
        verdict_fits(
            plan,
            image,
            run(
                plan,
                Control {
                    phase: Phase::Verifying { offset },
                    opened: true,
                    total_bytes: image.len() as u64,
                    verification: Verification::NotRequested,
                },
                read_back_signals(image, plan.chunk_len as nat, offset as nat),
            ),
        ),
    decreases image.len() - offset,
{
    let chunk = plan.chunk_len as nat;
    let total = image.len();
    let c = Control {
        phase: Phase::Verifying { offset },
        opened: true,
        total_bytes: total as u64,
        verification: Verification::NotRequested,
    };
    let len = span_len(total, chunk, offset as nat);
    let data = image.subrange(offset as int, offset + len);
    let rest = read_back_signals(image, chunk, (offset + len) as nat);
    let signals = read_back_signals(image, chunk, offset as nat);
    assert(signals == seq![Signal::Chunk(data)] + rest);
    assert(signals[0] == Signal::Chunk(data));
    assert(signals.drop_first() =~= rest);
    let n = next(plan, c, signals[0]);
    assert(run(plan, c, signals) == run(plan, n, rest));
    if !all_zero(data) {
        law_terminal_is_final(plan, n, rest);
    } else {
        assert(all_zero(image.subrange(0, offset + len))) by {
            let upto = image.subrange(0, offset + len);
            assert forall|i: int| 0 <= i < upto.len() implies upto[i] == 0 by {
                if i < offset {
                    assert(image.subrange(0, offset as int)[i] == 0);
                } else {
                    assert(data[i - offset] == 0);
                }
            }
        }
        if offset + len < total {
            assert(len == chunk);
            lemma_mod_add_multiples_vanish(offset as int, chunk as int);
            lemma_verdict_from(plan, image, (offset + len) as u64);
        } else {
            assert(image.subrange(0, offset + len) =~= image);
            law_terminal_is_final(plan, n, rest);
        }
    }
}

/// Verification of a zero wipe reads the device chunk by chunk from offset 0
/// and stops at the first chunk that holds a non-zero byte: it ends in
/// `Success` exactly when the whole device holds zeros, and otherwise in
/// `VerificationFailed` with the offset at which the first such chunk starts.
pub proof fn law_verification_verdict(plan: WipePlan, image: Seq<u8>)
    requires
        plan.verify,
        plan.pattern == Pattern::Zero,
        plan.chunk_len >= 1,
        image.len() <= u64::MAX,
    ensures
        verdict_fits(plan, image, verify_image(plan, image)),
        all_zero(image) <==> verify_image(plan, image).phase == Phase::Done(WipeOutcome::Success),
{
    if image.len() == 0 {
        assert(read_back_signals(image, plan.chunk_len as nat, 0) =~= Seq::<Signal>::empty());
    } else {
        assert(image.subrange(0, 0) =~= Seq::<u8>::empty());
        lemma_verdict_from(plan, image, 0);
        let end = verify_image(plan, image);
        if let Phase::Done(WipeOutcome::VerificationFailed(offset)) = end.phase {
            let len = span_len(image.len(), plan.chunk_len as nat, offset as nat);
            let dirty = image.subrange(offset as int, offset + len);
            if all_zero(image) {
                assert forall|i: int| 0 <= i < dirty.len() implies dirty[i] == 0 by {
                    assert(dirty[i] == image[offset + i]);
                }
            }
        }
    }
}

/// A zero wipe with verification that ended in `Success` has left the
/// device zeroed over its full declared size: the read-back returned a zero
/// for every byte of the device; the passes written turn any earlier content
/// of that size into zeros; and verifying a device with that content once
/// more ends in the same `Success`.
pub proof fn law_verified_zero_wipe_leaves_zeros(m: WipeModel, image: Seq<u8>)
    requires
        m.wf(),
        m.plan.pattern == Pattern::Zero,
        m.plan.verify,
        m.outcome() == Some(WipeOutcome::Success),
        image.len() == m.control.total_bytes,
    ensures
        m.control.verification == Verification::Confirmed,
        m.history.read_back == zeros(m.control.total_bytes as nat),
        passes_onto(image, m.history.finished) == zeros(m.control.total_bytes as nat),
        verify_image(m.plan, passes_onto(image, m.history.finished)) == (Control {
            phase: Phase::Done(WipeOutcome::Success),
            opened: true,
            total_bytes: m.control.total_bytes,
            verification: Verification::Confirmed,
        }),
{
    let total = m.control.total_bytes as nat;
    assert(m.history.read_back =~= zeros(total));
    assert(full_pass(m.plan, total, m.history.finished[m.plan.pass_count - 1]));
    lemma_zero_passes_image(m.plan, total, m.history.finished, image);
    law_verification_verdict(m.plan, zeros(total));
    law_size_is_fixed_once_open(
        m.plan,
        verification_start(m.plan, m.control.total_bytes),
        read_back_signals(zeros(total), m.plan.chunk_len as nat, 0),
    );
}

/// The size resolved when the device was opened is held for the rest of the
/// wipe: no signal changes it.
pub proof fn law_size_is_fixed_once_open(plan: WipePlan, c: Control, signals: Seq<Signal>)
    requires
        !(c.phase is Pending),
        !(c.phase is Opening),
    ensures
        run(plan, c, signals).total_bytes == c.total_bytes,
        run(plan, c, signals).opened == c.opened,
    decreases signals.len(),
{
    if signals.len() > 0 {
        law_size_is_fixed_once_open(plan, next(plan, c, signals[0]), signals.drop_first());
    }
}

/// Within one device the order is strict. A write follows the opening of
/// the device, the write before it in the same pass, or the rewind of the
/// pass before; a rewind follows the flush of its own pass; and reading back
/// begins only when the last pass is flushed and rewound.
pub proof fn law_phases_keep_their_order(plan: WipePlan, c: Control, s: Signal)
    requires
        control_wf(plan, c),
    ensures
        ({
            let n = next(plan, c, s);
            &&& n.phase != c.phase ==> match n.phase {
                Phase::Writing { pass, written } => match c.phase {
                    Phase::Opening => pass == 1 && written == 0,
                    Phase::Writing { pass: same, written: before } => pass == same && before
                        < written,
                    Phase::Rewinding { pass: before } => pass == before + 1 && written == 0,
                    _ => false,
                },
                Phase::Flushing { pass } => match c.phase {
                    Phase::Opening => pass == 1 && n.total_bytes == 0,
                    Phase::Writing { pass: same, .. } => pass == same,
                    Phase::Rewinding { pass: before } => pass == before + 1 && n.total_bytes == 0,
                    _ => false,
                },
                Phase::Rewinding { pass } => c.phase == (Phase::Flushing { pass }),
                Phase::Verifying { offset } => match c.phase {
                    Phase::Rewinding { pass } => pass == plan.pass_count && offset == 0,
                    Phase::Verifying { offset: before } => before < offset,
                    _ => false,
                },
                Phase::Done(WipeOutcome::Success) => c.phase == (Phase::Rewinding {
                    pass: plan.pass_count,
                }) || c.phase is Verifying,
                _ => true,
            }
        }),
{
}

/// One step of a wipe as it can happen: a signal, and what the buffer holds
/// once the step is made.
pub struct Step {
    pub signal: Signal,
    pub buffer: Seq<u8>,
}

/// The buffer of `step` is one that the step can leave behind in state `m`:
/// refilled where the step starts a write, with zeros under a zero fill and
/// with anything under a random fill; untouched otherwise.
pub open spec fn step_fits(m: WipeModel, step: Step) -> bool {
    &&& step.buffer.len() == m.plan.chunk_len
    &&& starts_write(m.plan, m.control, step.signal) && m.plan.pattern == Pattern::Zero
        ==> all_zero(step.buffer)
    &&& !starts_write(m.plan, m.control, step.signal) ==> step.buffer == m.buffer
}

/// Every step of `steps` fits the state in which it is made, from `m` on.
pub open spec fn steps_fit(m: WipeModel, steps: Seq<Step>) -> bool
    decreases steps.len(),
{
    steps.len() > 0 ==> step_fits(m, steps[0]) && steps_fit(
        m.after(steps[0].signal, steps[0].buffer),
        steps.drop_first(),
    )
}

/// The wipe reached from `m` by the steps of `steps`, in order.
pub open spec fn follow(m: WipeModel, steps: Seq<Step>) -> WipeModel
    decreases steps.len(),
{
    if steps.len() == 0 {
        m
    } else {
        follow(m.after(steps[0].signal, steps[0].buffer), steps.drop_first())
    }
}

/// The invariant holds in every state that a wipe can reach, whatever the
/// device signals.
pub proof fn law_every_reachable_state_is_well_formed(m: WipeModel, steps: Seq<Step>)
    requires
        m.wf(),
        steps_fit(m, steps),
    ensures
        follow(m, steps).wf(),
    decreases steps.len(),
{
    if steps.len() > 0 {
        let first = steps[0];
        lemma_transition_keeps_invariant(
            m.plan,
            m.control,
            m.history,
            first.signal,
            m.buffer,
            first.buffer,
        );
        law_every_reachable_state_is_well_formed(
            m.after(first.signal, first.buffer),
            steps.drop_first(),
        );
    }
}

/// Whatever a device signals: a wipe of it that ends in `Success` has
/// issued, for each of the passes asked for, writes that cover the device
/// exactly once, and a wipe of it that was refused has issued none.
pub proof fn law_writes_of_every_wipe(path: Seq<char>, plan: WipePlan, steps: Seq<Step>)
    requires
        plan.pass_count >= 1,
        plan.chunk_len >= 1,
        steps_fit(fresh(path, plan), steps),
    ensures
        ({
            let end = follow(fresh(path, plan), steps);
            let total = end.control.total_bytes as nat;
            &&& end.outcome() == Some(WipeOutcome::Success) ==> {
                &&& end.history.finished.len() == plan.pass_count
                &&& end.history.current.len() == 0
                &&& forall|p: int|
                    0 <= p < plan.pass_count ==> full_pass(
                        plan,
                        total,
                        #[trigger] end.history.finished[p],
                    )
                &&& writes_in(end.history.finished) == plan.pass_count * span_count(
                    total,
                    plan.chunk_len as nat,
                )
            }
            &&& end.control.phase is PrecheckFailed ==> {
                &&& end.history.finished.len() == 0
                &&& end.history.current.len() == 0
            }
        }),
{
    let start = fresh(path, plan);
    assert(start.wf());
    law_every_reachable_state_is_well_formed(start, steps);
    lemma_follow_keeps_plan(start, steps);
    let end = follow(start, steps);
    if end.outcome() == Some(WipeOutcome::Success) {
        law_success_wrote_every_pass(end);
    }
}

/// The parameters of a wipe never change.
pub proof fn lemma_follow_keeps_plan(m: WipeModel, steps: Seq<Step>)
    ensures
        follow(m, steps).plan == m.plan,
        follow(m, steps).path == m.path,
    decreases steps.len(),
{
    if steps.len() > 0 {
        lemma_follow_keeps_plan(m.after(steps[0].signal, steps[0].buffer), steps.drop_first());
    }
}

/// A wipe that has ended stays exactly as it is: no later step changes its
/// state, its buffer or its history.
pub proof fn law_ended_wipe_is_left_alone(m: WipeModel, steps: Seq<Step>)
    requires
        m.control.phase.is_terminal(),
        steps_fit(m, steps),
    ensures
        follow(m, steps) == m,
    decreases steps.len(),
{
    if steps.len() > 0 {
        assert(m.after(steps[0].signal, steps[0].buffer) == m);
        law_ended_wipe_is_left_alone(m, steps.drop_first());
    }
}

/// A random wipe whose generator could not be seeded touches nothing: it has
/// ended in `IoFailure(RandomSourceUnavailable)` before its first step, it
/// asks for no action but to report that, and nothing is ever written.
pub proof fn law_unseeded_wipe_does_nothing(path: Seq<char>, plan: WipePlan, steps: Seq<Step>)
    requires
        steps_fit(unseeded(path, plan), steps),
    ensures
        follow(unseeded(path, plan), steps) == unseeded(path, plan),
        unseeded(path, plan).outcome() == Some(
            WipeOutcome::IoFailure(IoReason::RandomSourceUnavailable),
        ),
        pending(plan, unseeded(path, plan).control) is Finish,
        unseeded(path, plan).history.finished.len() == 0,
        unseeded(path, plan).history.current.len() == 0,
{
    law_ended_wipe_is_left_alone(unseeded(path, plan), steps);
}

} // verus!
