//! How one pass over a device is cut into buffer-sized transfers.
//!
//! A pass walks the device from offset 0 in steps of one buffer. Every
//! transfer but the last moves a full buffer; the last is cut down to what is
//! left, so a pass never reaches beyond the device's declared size.

use vstd::prelude::*;

verus! {

/// Length of the transfer that starts at `offset` on a device of `total`
/// bytes when the buffer holds `chunk` bytes: a full buffer, or what is left
/// of the device if that is less.
pub open spec fn span_len(total: nat, chunk: nat, offset: nat) -> nat {
    if offset >= total {
        0
    } else if total - offset < chunk {
        (total - offset) as nat
    } else {
        chunk
    }
}

/// Number of transfers in one pass: `total / chunk`, rounded up.
pub open spec fn span_count(total: nat, chunk: nat) -> nat
    recommends
        chunk > 0,
{
    ((total + chunk - 1) / (chunk as int)) as nat
}

/// Computes the length of the transfer that starts at `offset`.
pub fn next_span_len(total: u64, chunk: usize, offset: u64) -> (len: usize)
    ensures
        len == span_len(total as nat, chunk as nat, offset as nat),
        offset + len <= u64::MAX,
        offset < total && chunk > 0 ==> 0 < len && offset + len <= total,
{
    if offset >= total {
        0
    } else {
        let left: u64 = total - offset;
        if left < chunk as u64 {
            left as usize
        } else {
            chunk
        }
    }
}

/// How much of a pass is done, in hundredths of a percent, rounded down:
/// `bytes_written / total * 100` with two decimals. A device of no bytes is
/// done from the start.
pub open spec fn hundredths_done(bytes_written: nat, total: nat) -> nat {
    if total == 0 || bytes_written >= total {
        10000
    } else {
        ((bytes_written * 10000) as int / (total as int)) as nat
    }
}

/// Computes the progress of a pass in hundredths of a percent.
pub fn progress_hundredths(bytes_written: u64, total_bytes: u64) -> (done: u64)
    ensures
        done == hundredths_done(bytes_written as nat, total_bytes as nat),
        done <= 10000,
{
    if total_bytes == 0 || bytes_written >= total_bytes {
        10000
    } else {
        let scaled: u128 = bytes_written as u128 * 10000;
        let done: u128 = scaled / (total_bytes as u128);
        assert(done <= 10000) by (nonlinear_arith)
            requires
                done == scaled / (total_bytes as u128),
                scaled == bytes_written * 10000,
                bytes_written < total_bytes,
                total_bytes > 0,
        ;
        done as u64
    }
}

} // verus!
