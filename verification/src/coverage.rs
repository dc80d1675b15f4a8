//! What a pass amounts to: how many writes it takes, how many bytes it
//! moves, and what it leaves on the device.

use vstd::prelude::*;
use crate::control::WipePlan;
use crate::history::{contiguous, full_pass, pass_prefix, reach, record_fits, WriteRecord};
use crate::pattern::{zeros, Pattern};
use crate::schedule::span_count;

verus! {

/// Sum of the lengths of the writes in `ops`.
pub open spec fn bytes_in(ops: Seq<WriteRecord>) -> nat
    decreases ops.len(),
{
    if ops.len() == 0 {
        0
    } else {
        bytes_in(ops.drop_last()) + ops.last().data.len()
    }
}

/// Number of writes in all the passes of `passes`.
pub open spec fn writes_in(passes: Seq<Seq<WriteRecord>>) -> nat
    decreases passes.len(),
{
    if passes.len() == 0 {
        0
    } else {
        writes_in(passes.drop_last()) + passes.last().len()
    }
}

/// The device content after the write `r` lands on `image`.
pub open spec fn write_onto(image: Seq<u8>, r: WriteRecord) -> Seq<u8> {
    Seq::new(
        image.len(),
        |i: int|
            if r.offset <= i < r.offset + r.data.len() {
                r.data[i - r.offset]
            } else {
                image[i]
            },
    )
}

/// The device content after the writes of `ops` land on `image`, in order.
pub open spec fn pass_onto(image: Seq<u8>, ops: Seq<WriteRecord>) -> Seq<u8>
    decreases ops.len(),
{
    if ops.len() == 0 {
        image
    } else {
        write_onto(pass_onto(image, ops.drop_last()), ops.last())
    }
}

/// The device content after all the passes of `passes` land on `image`.
pub open spec fn passes_onto(image: Seq<u8>, passes: Seq<Seq<WriteRecord>>) -> Seq<u8>
    decreases passes.len(),
{
    if passes.len() == 0 {
        image
    } else {
        pass_onto(passes_onto(image, passes.drop_last()), passes.last())
    }
}

/// The beginning of a pass without its last write is the beginning of a pass,
/// and it reaches as far as where that last write starts.
pub proof fn lemma_prefix_shrinks(plan: WipePlan, total: nat, ops: Seq<WriteRecord>)
    requires
        pass_prefix(plan, total, ops),
        ops.len() > 0,
    ensures
        pass_prefix(plan, total, ops.drop_last()),
        reach(ops.drop_last()) == ops.last().offset,
{
    let head = ops.drop_last();
    assert forall|i: int| 0 <= i < head.len() implies record_fits(plan, total, #[trigger] head[i]) by {
        assert(head[i] == ops[i]);
    }
    assert(contiguous(head)) by {
        if head.len() > 0 {
            assert(head[0] == ops[0]);
        }
        assert forall|i: int| 0 <= i < head.len() - 1 implies (#[trigger] head[i + 1]).offset
            == head[i].offset + head[i].data.len() by {
            assert(head[i + 1] == ops[i + 1]);
            assert(head[i] == ops[i]);
        }
    }
    if head.len() > 0 {
        let k = head.len() - 1;
        assert(head.last() == ops[k]);
        assert(ops[k + 1].offset == ops[k].offset + ops[k].data.len());
    }
}

/// The writes of a pass start at the multiples of the buffer size, and all
/// but the last carry a full buffer.
pub proof fn lemma_pass_offsets(plan: WipePlan, total: nat, ops: Seq<WriteRecord>, i: int)
    requires
        pass_prefix(plan, total, ops),
        plan.chunk_len >= 1,
        0 <= i < ops.len(),
    ensures
        ops[i].offset == i * plan.chunk_len,
        i < ops.len() - 1 ==> ops[i].data.len() == plan.chunk_len,
    decreases i,
{
    let chunk = plan.chunk_len as int;
    assert(record_fits(plan, total, ops[i]));
    if i > 0 {
        lemma_pass_offsets(plan, total, ops, i - 1);
        assert(ops[i - 1 + 1].offset == ops[i - 1].offset + ops[i - 1].data.len());
        assert((i - 1) * chunk + chunk == i * chunk) by (nonlinear_arith);
    }
    if i < ops.len() - 1 {
        assert(ops[i + 1].offset == ops[i].offset + ops[i].data.len());
        assert(record_fits(plan, total, ops[i + 1]));
    }
}

/// A pass takes as many writes as the device has buffer-sized pieces, the
/// last piece counted in full.
pub proof fn lemma_full_pass_count(plan: WipePlan, total: nat, ops: Seq<WriteRecord>)
    requires
        full_pass(plan, total, ops),
        plan.chunk_len >= 1,
    ensures
        ops.len() == span_count(total, plan.chunk_len as nat),
{
    let chunk = plan.chunk_len as int;
    let count = ops.len() as int;
    if count == 0 {
        assert((0 + chunk - 1) / chunk == 0) by (nonlinear_arith)
            requires
                chunk >= 1,
        ;
    } else {
        lemma_pass_offsets(plan, total, ops, count - 1);
        assert(record_fits(plan, total, ops[count - 1]));
        let t = total as int;
        assert((count - 1) * chunk < t && t <= (count - 1) * chunk + chunk);
        assert((t + chunk - 1) / chunk == count) by (nonlinear_arith)
            requires
                chunk >= 1,
                (count - 1) * chunk < t,
                t <= (count - 1) * chunk + chunk,
        ;
    }
}

/// The writes of a pass add up to exactly as many bytes as the pass has
/// covered.
pub proof fn lemma_prefix_bytes(plan: WipePlan, total: nat, ops: Seq<WriteRecord>)
    requires
        pass_prefix(plan, total, ops),
    ensures
        bytes_in(ops) == reach(ops),
        reach(ops) <= total,
    decreases ops.len(),
{
    if ops.len() > 0 {
        lemma_prefix_shrinks(plan, total, ops);
        lemma_prefix_bytes(plan, total, ops.drop_last());
        assert(record_fits(plan, total, ops[ops.len() - 1]));
    }
}

/// After the beginning of a zero pass, the device holds zeros as far as the
/// pass has come and its earlier content beyond.
pub proof fn lemma_zero_prefix_image(
    plan: WipePlan,
    total: nat,
    ops: Seq<WriteRecord>,
    image: Seq<u8>,
)
    requires
        pass_prefix(plan, total, ops),
        plan.pattern == Pattern::Zero,
        image.len() == total,
    ensures
        pass_onto(image, ops).len() == total,
        forall|i: int| 0 <= i < reach(ops) ==> pass_onto(image, ops)[i] == 0,
        forall|i: int| reach(ops) <= i < total ==> pass_onto(image, ops)[i] == image[i],
    decreases ops.len(),
{
    if ops.len() > 0 {
        lemma_prefix_shrinks(plan, total, ops);
        lemma_zero_prefix_image(plan, total, ops.drop_last(), image);
        let last = ops.last();
        assert(record_fits(plan, total, ops[ops.len() - 1]));
        let mid = pass_onto(image, ops.drop_last());
        let out = pass_onto(image, ops);
        assert(out == write_onto(mid, last));
        assert forall|i: int| 0 <= i < reach(ops) implies out[i] == 0 by {
            if last.offset <= i {
                assert(out[i] == last.data[i - last.offset]);
            }
        }
    }
}

/// After any number of passes, at least one, of which the last is a whole
/// zero pass, the device holds nothing but zeros, whatever it held before.
pub proof fn lemma_zero_passes_image(
    plan: WipePlan,
    total: nat,
    passes: Seq<Seq<WriteRecord>>,
    image: Seq<u8>,
)
    requires
        passes.len() >= 1,
        full_pass(plan, total, passes.last()),
        plan.pattern == Pattern::Zero,
        image.len() == total,
    ensures
        passes_onto(image, passes) == zeros(total),
{
    let earlier = passes.drop_last();
    let before = passes_onto(image, earlier);
    assert(before.len() == total) by {
        lemma_passes_keep_size(earlier, image);
    }
    lemma_zero_prefix_image(plan, total, passes.last(), before);
    assert(passes_onto(image, passes) =~= zeros(total));
}

/// Whole passes leave the size of the device as it is.
pub proof fn lemma_passes_keep_size(passes: Seq<Seq<WriteRecord>>, image: Seq<u8>)
    ensures
        passes_onto(image, passes).len() == image.len(),
    decreases passes.len(),
{
    if passes.len() > 0 {
        lemma_passes_keep_size(passes.drop_last(), image);
        lemma_pass_keeps_size(passes_onto(image, passes.drop_last()), passes.last());
    }
}

/// A pass leaves the size of the device as it is.
pub proof fn lemma_pass_keeps_size(image: Seq<u8>, ops: Seq<WriteRecord>)
    ensures
        pass_onto(image, ops).len() == image.len(),
    decreases ops.len(),
{
    if ops.len() > 0 {
        lemma_pass_keeps_size(image, ops.drop_last());
    }
}

/// Whole passes take the same number of writes each.
pub proof fn lemma_writes_in_full_passes(
    plan: WipePlan,
    total: nat,
    passes: Seq<Seq<WriteRecord>>,
)
    requires
        forall|p: int| 0 <= p < passes.len() ==> full_pass(plan, total, #[trigger] passes[p]),
        plan.chunk_len >= 1,
    ensures
        writes_in(passes) == passes.len() * span_count(total, plan.chunk_len as nat),
    decreases passes.len(),
{
    if passes.len() > 0 {
        let earlier = passes.drop_last();
        assert forall|p: int| 0 <= p < earlier.len() implies full_pass(
            plan,
            total,
            #[trigger] earlier[p],
        ) by {
            assert(earlier[p] == passes[p]);
        }
        lemma_writes_in_full_passes(plan, total, earlier);
        assert(full_pass(plan, total, passes[passes.len() - 1]));
        lemma_full_pass_count(plan, total, passes.last());
        let count = span_count(total, plan.chunk_len as nat) as int;
        let n = passes.len() as int;
        assert((n - 1) * count + count == n * count) by (nonlinear_arith);
    }
}

} // verus!
