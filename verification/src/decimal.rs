//! Unsigned decimal numbers as they appear in arguments and tool output.

use vstd::prelude::*;

verus! {

/// `b` is one of the ASCII digits `0` to `9`.
pub open spec fn is_digit(b: u8) -> bool {
    0x30 <= b <= 0x39
}

/// `s` is a non-empty run of ASCII digits.
pub open spec fn is_digits(s: Seq<u8>) -> bool {
    &&& s.len() > 0
    &&& forall|i: int| 0 <= i < s.len() ==> is_digit(#[trigger] s[i])
}

/// The number that the digits of `s` spell in base ten.
pub open spec fn digits_value(s: Seq<u8>) -> nat
    decreases s.len(),
{
    if s.len() == 0 {
        0
    } else {
        digits_value(s.drop_last()) * 10 + (s.last() - 0x30) as nat
    }
}

/// The number that `s` spells, if it spells one: an optional `+`, then one
/// or more digits. Leading zeros are allowed.
pub open spec fn unsigned_decimal(s: Seq<u8>) -> Option<nat> {
    let body = if s.len() > 0 && s[0] == 0x2b {
        s.subrange(1, s.len() as int)
    } else {
        s
    };
    if is_digits(body) {
        Some(digits_value(body))
    } else {
        None
    }
}

/// A longer run of digits spells a number that is at least as large.
proof fn lemma_value_grows(s: Seq<u8>, k: int)
    requires
        0 <= k <= s.len(),
        forall|i: int| 0 <= i < s.len() ==> is_digit(#[trigger] s[i]),
    ensures
        digits_value(s.subrange(0, k)) <= digits_value(s),
    decreases s.len() - k,
{
    if k == s.len() {
        assert(s.subrange(0, k) =~= s);
    } else {
        let head = s.drop_last();
        assert(head.subrange(0, k) =~= s.subrange(0, k));
        assert forall|i: int| 0 <= i < head.len() implies is_digit(#[trigger] head[i]) by {
            assert(head[i] == s[i]);
        }
        lemma_value_grows(head, k);
        assert(is_digit(s[s.len() - 1]));
    }
}

/// Reads the unsigned decimal number that `text` spells from position
/// `from` on.
///
/// Returns the number exactly when that part of `text` is an optional `+`
/// followed by one or more digits that spell a value of at most `u64::MAX`.
pub fn parse_u64_from(text: &[u8], from: usize, to: usize) -> (r: Option<u64>)
    requires
        from <= to <= text@.len(),
    ensures
        r == match unsigned_decimal(text@.subrange(from as int, to as int)) {
            Some(v) => if v <= u64::MAX {
                Some(v as u64)
            } else {
                None
            },
            None => None,
        },
{
    let ghost part = text@.subrange(from as int, to as int);
    let mut i: usize = from;
    if i < to && text[i] == 0x2b {
        i = i + 1;
    }
    let start: usize = i;
    let ghost body = text@.subrange(start as int, to as int);
    assert(body == if part.len() > 0 && part[0] == 0x2b {
        part.subrange(1, part.len() as int)
    } else {
        part
    }) by {
        if start > from {
            assert(part[0] == text@[from as int]);
            assert(body =~= part.subrange(1, part.len() as int));
        } else {
            if part.len() > 0 {
                assert(part[0] == text@[from as int]);
            }
            assert(body =~= part);
        }
    }
    if start == to {
        return None;
    }
    let mut acc: u64 = 0;
    while i < to
        invariant
            start <= i <= to,
            to <= text@.len(),
            start < to,
            part == text@.subrange(from as int, to as int),
            body == text@.subrange(start as int, to as int),
            unsigned_decimal(part) == if is_digits(body) {
                Some(digits_value(body))
            } else {
                None::<nat>
            },
            forall|k: int| 0 <= k < i - start ==> is_digit(#[trigger] body[k]),
            acc == digits_value(body.subrange(0, i - start)),
        decreases to - i,
    {
        let b: u8 = text[i];
        assert(b == body[i - start]);
        if b < 0x30 || b > 0x39 {
            return None;
        }
        let d: u64 = (b - 0x30) as u64;
        let ghost longer = body.subrange(0, i - start + 1);
        assert(longer.drop_last() =~= body.subrange(0, i - start));
        assert(longer.last() == b);
        assert(digits_value(longer) == acc * 10 + d);
        if acc > (u64::MAX - d) / 10 {
            proof {
                if is_digits(body) {
                    lemma_value_grows(body, i - start + 1);
                }
            }
            return None;
        }
        acc = acc * 10 + d;
        i = i + 1;
    }
    assert(body.subrange(0, i - start) =~= body);
    Some(acc)
}

/// Reads the unsigned decimal number that the whole of `text` spells.
pub fn parse_u64(text: &[u8]) -> (r: Option<u64>)
    ensures
        r == match unsigned_decimal(text@) {
            Some(v) => if v <= u64::MAX {
                Some(v as u64)
            } else {
                None
            },
            None => None,
        },
{
    assert(text@.subrange(0, text@.len() as int) =~= text@);
    parse_u64_from(text, 0, text.len())
}

} // verus!
