//! The wipe of a device on which every operation succeeds.

use vstd::prelude::*;
use crate::control::{initial_control, next, pass_entry, Control, Phase, Signal, WipePlan};
use crate::laws::{
    law_size_is_fixed_once_open, law_verification_verdict, read_back_signals, run,
    verification_start, verify_image,
};
use crate::outcome::{Verification, WipeOutcome};
use crate::pattern::{zeros, Pattern};
use crate::schedule::{span_count, span_len};

verus! {

/// `count` times the signal that a write went through.
pub open spec fn written_signals(count: nat) -> Seq<Signal> {
    Seq::new(count, |i: int| Signal::Written)
}

/// What a sound device signals during one pass: a `Written` for each
/// transfer, then `Flushed` and `Rewound`.
pub open spec fn pass_signals(total: nat, chunk: nat) -> Seq<Signal> {
    written_signals(span_count(total, chunk)) + seq![Signal::Flushed, Signal::Rewound]
}

/// What a sound device signals during `count` passes.
pub open spec fn passes_signals(total: nat, chunk: nat, count: nat) -> Seq<Signal>
    decreases count,
{
    if count == 0 {
        Seq::empty()
    } else {
        pass_signals(total, chunk) + passes_signals(total, chunk, (count - 1) as nat)
    }
}

/// What a free and sound device of `total_bytes` bytes signals over a whole
/// wipe: that it is neither mounted nor in use, that it is open, the signals
/// of every pass, and, where a zero fill is verified, its content, all zero,
/// chunk by chunk.
pub open spec fn sound_signals(plan: WipePlan, total_bytes: u64) -> Seq<Signal> {
    seq![
        Signal::Usage { mounted: false, in_use: false },
        Signal::Opened { total_bytes },
    ] + passes_signals(total_bytes as nat, plan.chunk_len as nat, plan.pass_count as nat) + (if plan.verify
        && plan.pattern == Pattern::Zero {
        read_back_signals(zeros(total_bytes as nat), plan.chunk_len as nat, 0)
    } else {
        Seq::empty()
    })
}

/// The mark that a successful wipe under `plan` carries.
pub open spec fn expected_verification(plan: WipePlan) -> Verification {
    if !plan.verify {
        Verification::NotRequested
    } else if plan.pattern == Pattern::Random {
        Verification::Inconclusive
    } else {
        Verification::Confirmed
    }
}

/// Signals can be taken in two parts.
pub proof fn lemma_run_in_parts(plan: WipePlan, c: Control, first: Seq<Signal>, rest: Seq<Signal>)
    ensures
        run(plan, c, first + rest) == run(plan, run(plan, c, first), rest),
    decreases first.len(),
{
    if first.len() == 0 {
        assert(first + rest =~= rest);
    } else {
        let all = first + rest;
        assert(all[0] == first[0]);
        assert(all.drop_first() =~= first.drop_first() + rest);
        lemma_run_in_parts(plan, next(plan, c, first[0]), first.drop_first(), rest);
    }
}

/// From the `done`-th write of a pass on, the writes that are left bring the
/// pass to its flush.
proof fn lemma_writes_reach_flush(plan: WipePlan, c: Control, pass: u32, done: nat)
    requires
        plan.chunk_len >= 1,
        done * plan.chunk_len < c.total_bytes,
        c.phase == (Phase::Writing { pass, written: (done * plan.chunk_len) as u64 }),
    ensures
        done < span_count(c.total_bytes as nat, plan.chunk_len as nat),
        run(
            plan,
            c,
            written_signals(
                (span_count(c.total_bytes as nat, plan.chunk_len as nat) - done) as nat,
            ),
        ) == (Control { phase: Phase::Flushing { pass }, ..c }),
    decreases c.total_bytes - done * plan.chunk_len,
{
    let chunk = plan.chunk_len as int;
    let total = c.total_bytes as int;
    let count = span_count(total as nat, chunk as nat) as int;
    let written = done * chunk;
    assert(count == (total + chunk - 1) / chunk);
    assert(done < count) by (nonlinear_arith)
        requires
            count == (total + chunk - 1) / chunk,
            chunk >= 1,
            done * chunk < total,
    ;
    let left = written_signals((count - done) as nat);
    assert(left[0] == Signal::Written);
    assert(left.drop_first() =~= written_signals((count - done - 1) as nat));
    let n = next(plan, c, Signal::Written);
    let len = span_len(total as nat, chunk as nat, written as nat);
    if written + len < total {
        assert(len == chunk);
        assert((done + 1) * chunk == written + chunk) by (nonlinear_arith)
            requires
                written == done * chunk,
        ;
        lemma_writes_reach_flush(plan, n, pass, done + 1);
    } else {
        assert(count == done + 1) by (nonlinear_arith)
            requires
                count == (total + chunk - 1) / chunk,
                chunk >= 1,
                done * chunk < total,
                total <= done * chunk + chunk,
        ;
        assert(left.drop_first() =~= Seq::<Signal>::empty());
    }
}

/// One sound pass brings a wipe from the start of the pass to the end of
/// its rewind.
proof fn lemma_pass_reaches_rewind(plan: WipePlan, c: Control, pass: u32)
    requires
        plan.chunk_len >= 1,
        c.phase == pass_entry(c.total_bytes, pass),
    ensures
        run(
            plan,
            c,
            written_signals(span_count(c.total_bytes as nat, plan.chunk_len as nat))
                + seq![Signal::Flushed],
        ) == (Control { phase: Phase::Rewinding { pass }, ..c }),
{
    let chunk = plan.chunk_len as int;
    let total = c.total_bytes as int;
    let count = span_count(total as nat, chunk as nat);
    let writes = written_signals(count);
    let flushing = Control { phase: Phase::Flushing { pass }, ..c };
    if total == 0 {
        assert(count == 0) by (nonlinear_arith)
            requires
                count == (0 + chunk - 1) / chunk,
                chunk >= 1,
        ;
        assert(writes =~= Seq::<Signal>::empty());
    } else {
        assert(0 * chunk == 0) by (nonlinear_arith);
        lemma_writes_reach_flush(plan, c, pass, 0);
    }
    assert(run(plan, c, writes) == flushing);
    lemma_run_in_parts(plan, c, writes, seq![Signal::Flushed]);
    let tail = seq![Signal::Flushed];
    assert(tail[0] == Signal::Flushed);
    assert(tail.drop_first() =~= Seq::<Signal>::empty());
    assert(run(plan, flushing, tail) == run(
        plan,
        next(plan, flushing, Signal::Flushed),
        tail.drop_first(),
    ));
}

/// The sound passes that are left bring a wipe from the start of pass
/// `pass` to where verification begins.
proof fn lemma_passes_reach_verification(plan: WipePlan, c: Control, pass: u32)
    requires
        plan.chunk_len >= 1,
        1 <= pass <= plan.pass_count,
        c.phase == pass_entry(c.total_bytes, pass),
        c.opened,
        c.verification == Verification::NotRequested,
    ensures
        run(
            plan,
            c,
            passes_signals(
                c.total_bytes as nat,
                plan.chunk_len as nat,
                (plan.pass_count - pass + 1) as nat,
            ),
        ) == verification_start(plan, c.total_bytes),
    decreases plan.pass_count - pass,
{
    let total = c.total_bytes as nat;
    let chunk = plan.chunk_len as nat;
    let left = (plan.pass_count - pass + 1) as nat;
    let head = written_signals(span_count(total, chunk)) + seq![Signal::Flushed];
    let rewound = seq![Signal::Rewound];
    let later = passes_signals(total, chunk, (left - 1) as nat);
    assert(passes_signals(total, chunk, left) =~= head + (rewound + later));
    lemma_pass_reaches_rewind(plan, c, pass);
    lemma_run_in_parts(plan, c, head, rewound + later);
    let rewinding = Control { phase: Phase::Rewinding { pass }, ..c };
    lemma_run_in_parts(plan, rewinding, rewound, later);
    assert(rewound[0] == Signal::Rewound);
    assert(rewound.drop_first() =~= Seq::<Signal>::empty());
    let n = next(plan, rewinding, Signal::Rewound);
    assert(run(plan, rewinding, rewound) == run(plan, n, rewound.drop_first()));
    if pass < plan.pass_count {
        lemma_passes_reach_verification(plan, n, (pass + 1) as u32);
    } else {
        assert(later =~= Seq::<Signal>::empty());
    }
}

/// A free and sound device is wiped: with at least one pass and a buffer
/// that is not empty, the signals of such a device bring every wipe to
/// `Success`, marked as the plan's pattern and verify flag call for.
pub proof fn law_sound_device_is_wiped(plan: WipePlan, total_bytes: u64)
    requires
        plan.pass_count >= 1,
        plan.chunk_len >= 1,
    ensures
        run(plan, initial_control(), sound_signals(plan, total_bytes)) == (Control {
            phase: Phase::Done(WipeOutcome::Success),
            opened: true,
            total_bytes,
            verification: expected_verification(plan),
        }),
{
    let total = total_bytes as nat;
    let chunk = plan.chunk_len as nat;
    let opening = seq![
        Signal::Usage { mounted: false, in_use: false },
        Signal::Opened { total_bytes },
    ];
    let passes = passes_signals(total, chunk, plan.pass_count as nat);
    let reads = if plan.verify && plan.pattern == Pattern::Zero {
        read_back_signals(zeros(total), chunk, 0)
    } else {
        Seq::empty()
    };
    assert(sound_signals(plan, total_bytes) =~= opening + (passes + reads));
    let c0 = initial_control();
    let c1 = next(plan, c0, opening[0]);
    let c2 = next(plan, c1, opening[1]);
    assert(opening.drop_first()[0] == opening[1]);
    assert(opening.drop_first().drop_first() =~= Seq::<Signal>::empty());
    assert(run(plan, c0, opening) == run(plan, c1, opening.drop_first()));
    assert(run(plan, c1, opening.drop_first()) == run(
        plan,
        c2,
        opening.drop_first().drop_first(),
    ));
    assert(run(plan, c0, opening) == c2);
    lemma_run_in_parts(plan, c0, opening, passes + reads);
    lemma_passes_reach_verification(plan, c2, 1);
    lemma_run_in_parts(plan, c2, passes, reads);
    let start = verification_start(plan, total_bytes);
    if plan.verify && plan.pattern == Pattern::Zero {
        law_verification_verdict(plan, zeros(total));
        assert(verify_image(plan, zeros(total)) == run(plan, start, reads));
        law_size_is_fixed_once_open(plan, start, reads);
    }
}

} // verus!
