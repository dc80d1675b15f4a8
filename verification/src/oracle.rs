//! Reading what the system reports about a device.
//!
//! Three reports are understood here: the mount table, the list of processes
//! that hold the device open, and the size in bytes as a size query prints
//! it. Fetching the reports is left to the caller.

use vstd::prelude::*;
use crate::control::{Event, Signal};
use crate::decimal::{parse_u64_from, unsigned_decimal};

verus! {

/// `needle` stands in `hay` at position `at`.
pub open spec fn occurs_at(hay: Seq<u8>, needle: Seq<u8>, at: int) -> bool {
    &&& 0 <= at
    &&& at + needle.len() <= hay.len()
    &&& hay.subrange(at, at + needle.len()) == needle
}

/// `needle` stands somewhere in `hay`.
pub open spec fn occurs_in(hay: Seq<u8>, needle: Seq<u8>) -> bool {
    exists|at: int| occurs_at(hay, needle, at)
}

/// `table[start..end]` is a line of `table`: it begins at the start of the
/// text or right after a newline, holds no newline, and ends at a newline or
/// at the end of the text. Text after the last newline is a line only if it
/// is not empty.
pub open spec fn is_line(table: Seq<u8>, start: int, end: int) -> bool {
    &&& 0 <= start <= end <= table.len()
    &&& start < table.len()
    &&& start == 0 || table[start - 1] == 0x0a
    &&& forall|k: int| start <= k < end ==> table[k] != 0x0a
    &&& end == table.len() || table[end] == 0x0a
}

/// The content of the line `table[start..end]`: the line itself, without the
/// carriage return that may stand before its newline.
pub open spec fn line_text(table: Seq<u8>, start: int, end: int) -> Seq<u8> {
    if start < end < table.len() && table[end - 1] == 0x0d {
        table.subrange(start, end - 1)
    } else {
        table.subrange(start, end)
    }
}

/// Some line of the mount table `table` holds `device`.
pub open spec fn table_lists(table: Seq<u8>, device: Seq<u8>) -> bool {
    exists|start: int, end: int| #[trigger]
        is_line(table, start, end) && occurs_in(line_text(table, start, end), device)
}

/// Tells whether `needle` stands in `text` at `at`.
fn matches_at(text: &[u8], at: usize, needle: &[u8]) -> (hit: bool)
    requires
        at + needle@.len() <= text@.len(),
    ensures
        hit == (text@.subrange(at as int, at + needle@.len()) == needle@),
{
    let m: usize = needle.len();
    let n: usize = text.len();
    let ghost window = text@.subrange(at as int, at + m);
    let mut k: usize = 0;
    while k < m
        invariant
            k <= m,
            m == needle@.len(),
            n == text@.len(),
            at + m <= n,
            window == text@.subrange(at as int, at + m),
            forall|j: int| 0 <= j < k ==> window[j] == needle@[j],
        decreases m - k,
    {
        if text[at + k] != needle[k] {
            assert(window[k as int] != needle@[k as int]);
            return false;
        }
        k = k + 1;
    }
    assert(window =~= needle@);
    true
}

/// Tells whether `needle` stands somewhere in `text[lo..hi]`.
pub fn contains_between(text: &[u8], lo: usize, hi: usize, needle: &[u8]) -> (found: bool)
    requires
        lo <= hi <= text@.len(),
    ensures
        found == occurs_in(text@.subrange(lo as int, hi as int), needle@),
{
    let m: usize = needle.len();
    let ghost hay = text@.subrange(lo as int, hi as int);
    if hi - lo < m {
        return false;
    }
    let last: usize = hi - m;
    let mut at: usize = lo;
    loop
        invariant
            lo <= at <= last,
            last + m == hi,
            hi <= text@.len(),
            m == needle@.len(),
            hay == text@.subrange(lo as int, hi as int),
            forall|k: int| 0 <= k < at - lo ==> !occurs_at(hay, needle@, k),
        decreases last - at,
    {
        assert(hay.subrange(at - lo, at - lo + m) =~= text@.subrange(at as int, at + m));
        if matches_at(text, at, needle) {
            assert(occurs_at(hay, needle@, at - lo));
            return true;
        }
        if at == last {
            return false;
        }
        at = at + 1;
    }
}

/// Tells whether the mount table `table` names `device`: whether `device`
/// stands within one of its lines.
pub fn mount_table_lists(table: &[u8], device: &[u8]) -> (listed: bool)
    ensures
        listed == table_lists(table@, device@),
{
    let n: usize = table.len();
    let mut start: usize = 0;
    while start < n
        invariant
            start <= n,
            n == table@.len(),
            start == n || start == 0 || table@[start - 1] == 0x0a,
            forall|s: int, e: int| #[trigger]
                is_line(table@, s, e) && s < start ==> !occurs_in(
                    line_text(table@, s, e),
                    device@,
                ),
        decreases n - start,
    {
        let mut end: usize = start;
        while end < n && table[end] != 0x0a
            invariant
                start <= end <= n,
                n == table@.len(),
                forall|k: int| start <= k < end ==> table@[k] != 0x0a,
            decreases n - end,
        {
            end = end + 1;
        }
        assert(is_line(table@, start as int, end as int));
        let stop: usize = if start < end && end < n && table[end - 1] == 0x0d {
            end - 1
        } else {
            end
        };
        assert(line_text(table@, start as int, end as int) == table@.subrange(
            start as int,
            stop as int,
        ));
        if contains_between(table, start, stop, device) {
            return true;
        }
        let after: usize = if end < n {
            end + 1
        } else {
            n
        };
        assert forall|s: int, e: int| #[trigger]
            is_line(table@, s, e) && s < after implies !occurs_in(
            line_text(table@, s, e),
            device@,
        ) by {
            if s >= start {
                if s > start {
                    assert(table@[s - 1] == 0x0a);
                }
                if e < end {
                    assert(table@[e] == 0x0a);
                }
                if e > end {
                    assert(table@[end as int] == 0x0a);
                }
            }
        }
        start = after;
    }
    false
}

/// Tells whether the listing of processes that hold a device open names
/// any: whether the listing is not empty.
pub fn holders_listed(listing: &[u8]) -> (in_use: bool)
    ensures
        in_use == (listing@.len() > 0),
{
    listing.len() > 0
}

/// `b` is an ASCII space, tab, line feed, vertical tab, form feed or
/// carriage return.
pub open spec fn is_space(b: u8) -> bool {
    b == 0x20 || 0x09 <= b <= 0x0d
}

/// `s` without the white space at its start.
pub open spec fn trim_start(s: Seq<u8>) -> Seq<u8>
    decreases s.len(),
{
    if s.len() > 0 && is_space(s[0]) {
        trim_start(s.drop_first())
    } else {
        s
    }
}

/// `s` without the white space at its end.
pub open spec fn trim_end(s: Seq<u8>) -> Seq<u8>
    decreases s.len(),
{
    if s.len() > 0 && is_space(s.last()) {
        trim_end(s.drop_last())
    } else {
        s
    }
}

/// `s` without the white space at either end.
pub open spec fn trim(s: Seq<u8>) -> Seq<u8> {
    trim_end(trim_start(s))
}

/// The size in bytes that a size report states, if it states one: the
/// report, white space at its ends set aside, spells an unsigned decimal
/// number of at most `u64::MAX`.
pub open spec fn reported_size(report: Seq<u8>) -> Option<u64> {
    match unsigned_decimal(trim(report)) {
        Some(v) => if v <= u64::MAX {
            Some(v as u64)
        } else {
            None
        },
        None => None,
    }
}

fn is_space_byte(b: u8) -> (r: bool)
    ensures
        r == is_space(b),
{
    b == 0x20 || (0x09 <= b && b <= 0x0d)
}

/// Finds where `text` begins and ends once the white space at its ends is
/// set aside.
pub fn trim_bounds(text: &[u8]) -> (bounds: (usize, usize))
    ensures
        bounds.0 <= bounds.1 <= text@.len(),
        text@.subrange(bounds.0 as int, bounds.1 as int) == trim(text@),
{
    let n: usize = text.len();
    let mut lo: usize = 0;
    assert(text@.subrange(0, n as int) =~= text@);
    while lo < n && is_space_byte(text[lo])
        invariant
            lo <= n,
            n == text@.len(),
            trim_start(text@) == trim_start(text@.subrange(lo as int, n as int)),
        decreases n - lo,
    {
        assert(text@.subrange(lo as int, n as int).drop_first() =~= text@.subrange(
            lo + 1,
            n as int,
        ));
        lo = lo + 1;
    }
    let ghost tail = text@.subrange(lo as int, n as int);
    assert(trim_start(text@) == tail);
    let mut hi: usize = n;
    while hi > lo && is_space_byte(text[hi - 1])
        invariant
            lo <= hi <= n,
            n == text@.len(),
            trim_end(tail) == trim_end(text@.subrange(lo as int, hi as int)),
        decreases hi - lo,
    {
        assert(text@.subrange(lo as int, hi as int).drop_last() =~= text@.subrange(
            lo as int,
            hi - 1,
        ));
        hi = hi - 1;
    }
    (lo, hi)
}

/// Reads the size in bytes from what a size query printed.
pub fn parse_size_report(report: &[u8]) -> (size: Option<u64>)
    ensures
        size == reported_size(report@),
{
    let (lo, hi) = trim_bounds(report);
    parse_u64_from(report, lo, hi)
}

/// What to do about a device that is mounted or in use.
#[derive(Clone, Copy, Debug, PartialEq, Eq, Structural)]
pub enum PreconditionPolicy {
    /// Leave the device alone; its wipe will be refused.
    Abort,
    /// Ask the operator whether to unmount the device first.
    PromptUnmount,
}

/// Tells whether the operator is to be asked about unmounting: the policy
/// allows it and the device is mounted or in use.
pub fn offers_unmount(policy: PreconditionPolicy, mounted: bool, in_use: bool) -> (ask: bool)
    ensures
        ask == (policy == PreconditionPolicy::PromptUnmount && (mounted || in_use)),
{
    match policy {
        PreconditionPolicy::Abort => false,
        PreconditionPolicy::PromptUnmount => mounted || in_use,
    }
}

/// The answer `answer` agrees: white space at its ends set aside, it is the
/// single letter `y`, in either case.
pub open spec fn is_consent(answer: Seq<u8>) -> bool {
    trim(answer) == seq![0x79u8] || trim(answer) == seq![0x59u8]
}

/// Tells whether the operator's answer to a yes-or-no question agrees.
pub fn consents(answer: &[u8]) -> (yes: bool)
    ensures
        yes == is_consent(answer@),
{
    let (lo, hi) = trim_bounds(answer);
    let ghost core = answer@.subrange(lo as int, hi as int);
    if hi - lo != 1 {
        assert(seq![0x79u8].len() == 1 && seq![0x59u8].len() == 1);
        return false;
    }
    let b: u8 = answer[lo];
    assert(core[0] == b);
    if b == 0x79 {
        assert(core =~= seq![0x79u8]);
        true
    } else if b == 0x59 {
        assert(core =~= seq![0x59u8]);
        true
    } else {
        assert(seq![0x79u8][0] == 0x79u8);
        assert(seq![0x59u8][0] == 0x59u8);
        false
    }
}

/// The signal on mount state and open handles for `device`, from the mount
/// table and the listing of processes that hold the device open.
pub fn usage_event<'a>(table: &[u8], listing: &[u8], device: &[u8]) -> (event: Event<'a>)
    ensures
        event@ == (Signal::Usage {
            mounted: table_lists(table@, device@),
            in_use: listing@.len() > 0,
        }),
{
    Event::Usage { mounted: mount_table_lists(table, device), in_use: holders_listed(listing) }
}

/// The signal for a device that was opened for writing and whose size query
/// printed `report`: `Opened` with the size where the report states one,
/// `SizeUnavailable` where it does not.
pub fn opened_event<'a>(report: &[u8]) -> (event: Event<'a>)
    ensures
        event@ == match reported_size(report@) {
            Some(total_bytes) => Signal::Opened { total_bytes },
            None => Signal::SizeUnavailable,
        },
{
    match parse_size_report(report) {
        Some(total_bytes) => Event::Opened { total_bytes },
        None => Event::SizeUnavailable,
    }
}

} // verus!
