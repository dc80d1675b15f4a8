//! The phases of one device's wipe and the rule that moves between them.
//!
//! A worker alternates between carrying out an [`Action`] on its device and
//! reporting what happened as a [`Signal`]. The rule [`next`] turns the
//! current phase and a signal into the following phase; [`pending`] names the
//! action that a phase waits for.

use vstd::prelude::*;
use crate::outcome::{IoReason, PreconditionReason, Verification, WipeOutcome};
use crate::pattern::{all_zero, is_all_zero, Pattern};
use crate::schedule::{next_span_len, span_len};

verus! {

/// The parameters of a batch as each worker carries them.
#[derive(Clone, Copy, Debug, PartialEq, Eq, Structural)]
pub struct WipePlan {
    /// Fill used for every pass.
    pub pattern: Pattern,
    /// Number of full overwrites; at least 1.
    pub pass_count: u32,
    /// Whether the device is read back after the last pass.
    pub verify: bool,
    /// Size of the transfer buffer in bytes; at least 1.
    pub chunk_len: usize,
}

/// Where one device's wipe stands.
#[derive(Clone, Copy, Debug, PartialEq, Eq, Structural)]
pub enum Phase {
    /// Nothing is known of the device yet.
    Pending,
    /// The device was mounted or in use. Terminal.
    PrecheckFailed(PreconditionReason),
    /// The device is free; size and write handle are being obtained.
    Opening,
    /// Pass `pass` has `written` bytes on the device and the write that starts
    /// at `written` is under way.
    Writing { pass: u32, written: u64 },
    /// Pass `pass` has covered the device and is being flushed.
    Flushing { pass: u32 },
    /// Pass `pass` is flushed; the handle is being moved back to offset 0.
    Rewinding { pass: u32 },
    /// The first `offset` bytes read back as zero and the read that starts at
    /// `offset` is under way.
    Verifying { offset: u64 },
    /// The wipe has ended. Terminal.
    Done(WipeOutcome),
}

/// What a worker reports after carrying out an action.
pub enum Signal {
    /// The oracle's answer on mount state and open handles.
    Usage { mounted: bool, in_use: bool },
    /// The oracle could not answer.
    UsageUnavailable,
    /// Size resolved and device opened for writing.
    Opened { total_bytes: u64 },
    /// The size query failed.
    SizeUnavailable,
    /// The device could not be opened.
    OpenFailed,
    /// The buffer was written in full.
    Written,
    /// The write failed.
    WriteFailed,
    /// The flush completed.
    Flushed,
    /// The flush failed.
    FlushFailed,
    /// The handle is at offset 0 again.
    Rewound,
    /// Repositioning failed.
    RewindFailed,
    /// The bytes that the read returned.
    Chunk(Seq<u8>),
    /// The read failed.
    ReadFailed,
}

/// A report as the worker hands it in; [`Signal`] is its view.
#[derive(Clone, Copy, Debug)]
pub enum Event<'a> {
    /// The oracle's answer on mount state and open handles.
    Usage { mounted: bool, in_use: bool },
    /// The oracle could not answer.
    UsageUnavailable,
    /// Size resolved and device opened for writing.
    Opened { total_bytes: u64 },
    /// The size query failed.
    SizeUnavailable,
    /// The device could not be opened.
    OpenFailed,
    /// The buffer was written in full.
    Written,
    /// The write failed.
    WriteFailed,
    /// The flush completed.
    Flushed,
    /// The flush failed.
    FlushFailed,
    /// The handle is at offset 0 again.
    Rewound,
    /// Repositioning failed.
    RewindFailed,
    /// The bytes that the read returned.
    Chunk(&'a [u8]),
    /// The read failed.
    ReadFailed,
}

impl<'a> View for Event<'a> {
    type V = Signal;

    open spec fn view(&self) -> Signal {
        match *self {
            Event::Usage { mounted, in_use } => Signal::Usage { mounted, in_use },
            Event::UsageUnavailable => Signal::UsageUnavailable,
            Event::Opened { total_bytes } => Signal::Opened { total_bytes },
            Event::SizeUnavailable => Signal::SizeUnavailable,
            Event::OpenFailed => Signal::OpenFailed,
            Event::Written => Signal::Written,
            Event::WriteFailed => Signal::WriteFailed,
            Event::Flushed => Signal::Flushed,
            Event::FlushFailed => Signal::FlushFailed,
            Event::Rewound => Signal::Rewound,
            Event::RewindFailed => Signal::RewindFailed,
            Event::Chunk(data) => Signal::Chunk(data@),
            Event::ReadFailed => Signal::ReadFailed,
        }
    }
}

/// What the worker is asked to do next on its device.
#[derive(Clone, Copy, Debug, PartialEq, Eq, Structural)]
pub enum Action {
    /// Ask the oracle whether the device is mounted or in use.
    QueryUsage,
    /// Resolve the device's size and open it for writing.
    Open,
    /// Write the first `len` bytes of the wipe's buffer at `offset`.
    Write { offset: u64, len: usize },
    /// Force what was written to the device.
    Flush,
    /// Move the handle back to offset 0.
    Rewind,
    /// Read `len` bytes at `offset`.
    Read { offset: u64, len: usize },
    /// Nothing is left to do; report the outcome.
    Finish { outcome: WipeOutcome, verification: Verification },
}

/// The mutable core of a wipe: its phase, the size fixed when the device was
/// opened, and what verification has established.
#[derive(Clone, Copy, Debug, PartialEq, Eq, Structural)]
pub struct Control {
    /// Where the wipe stands.
    pub phase: Phase,
    /// Whether the device has been opened and its size resolved.
    pub opened: bool,
    /// Declared size of the device; 0 until it is opened.
    pub total_bytes: u64,
    /// What the read-back has established.
    pub verification: Verification,
}

impl Phase {
    /// The phase can no longer change.
    pub open spec fn is_terminal(self) -> bool {
        self is PrecheckFailed || self is Done
    }

    /// The phase belongs to an overwrite pass.
    pub open spec fn is_wiping(self) -> bool {
        self is Writing || self is Flushing || self is Rewinding
    }
}

/// The phase in which pass `pass` begins: its first write, or straight its
/// flush on a device of no bytes.
pub open spec fn pass_entry(total_bytes: u64, pass: u32) -> Phase {
    if total_bytes > 0 {
        Phase::Writing { pass, written: 0 }
    } else {
        Phase::Flushing { pass }
    }
}

/// The state that ends a wipe on a failed operation.
pub open spec fn failed(c: Control, reason: IoReason) -> Control {
    Control { phase: Phase::Done(WipeOutcome::IoFailure(reason)), ..c }
}

/// The state that follows the last pass: done at once when no verification
/// was asked for; done as inconclusive after a random fill; otherwise the
/// first read of the read-back.
pub open spec fn after_last_pass(plan: WipePlan, c: Control) -> Control {
    if !plan.verify {
        Control { phase: Phase::Done(WipeOutcome::Success), ..c }
    } else if plan.pattern == Pattern::Random {
        Control {
            phase: Phase::Done(WipeOutcome::Success),
            verification: Verification::Inconclusive,
            ..c
        }
    } else if c.total_bytes == 0 {
        Control {
            phase: Phase::Done(WipeOutcome::Success),
            verification: Verification::Confirmed,
            ..c
        }
    } else {
        Control { phase: Phase::Verifying { offset: 0 }, ..c }
    }
}

/// The transition rule. A signal that does not answer the action the phase
/// waits for leaves the state as it is; so does every signal in a terminal
/// phase.
pub open spec fn next(plan: WipePlan, c: Control, s: Signal) -> Control {
    match (c.phase, s) {
        (Phase::Pending, Signal::Usage { mounted, in_use }) => {
            if mounted {
                Control { phase: Phase::PrecheckFailed(PreconditionReason::Mounted), ..c }
            } else if in_use {
                Control { phase: Phase::PrecheckFailed(PreconditionReason::InUse), ..c }
            } else {
                Control { phase: Phase::Opening, ..c }
            }
        },
        (Phase::Pending, Signal::UsageUnavailable) => failed(c, IoReason::UsageUnavailable),
        (Phase::Opening, Signal::Opened { total_bytes }) => Control {
            phase: pass_entry(total_bytes, 1),
            opened: true,
            total_bytes,
            ..c
        },
        (Phase::Opening, Signal::SizeUnavailable) => failed(c, IoReason::DeviceUnavailable),
        (Phase::Opening, Signal::OpenFailed) => failed(c, IoReason::OpenFailed),
        (Phase::Writing { pass, written }, Signal::Written) => {
            let reached = written + span_len(
                c.total_bytes as nat,
                plan.chunk_len as nat,
                written as nat,
            );
            if reached < c.total_bytes {
                Control { phase: Phase::Writing { pass, written: reached as u64 }, ..c }
            } else {
                Control { phase: Phase::Flushing { pass }, ..c }
            }
        },
        (Phase::Writing { .. }, Signal::WriteFailed) => failed(c, IoReason::WriteFailed),
        (Phase::Flushing { pass }, Signal::Flushed) => Control {
            phase: Phase::Rewinding { pass },
            ..c
        },
        (Phase::Flushing { .. }, Signal::FlushFailed) => failed(c, IoReason::FlushFailed),
        (Phase::Rewinding { pass }, Signal::Rewound) => {
            if pass < plan.pass_count {
                Control { phase: pass_entry(c.total_bytes, (pass + 1) as u32), ..c }
            } else {
                after_last_pass(plan, c)
            }
        },
        (Phase::Rewinding { .. }, Signal::RewindFailed) => failed(c, IoReason::SeekFailed),
        (Phase::Verifying { offset }, Signal::Chunk(data)) => {
            if data.len() != span_len(
                c.total_bytes as nat,
                plan.chunk_len as nat,
                offset as nat,
            ) {
                failed(c, IoReason::ReadFailed)
            } else if !all_zero(data) {
                Control { phase: Phase::Done(WipeOutcome::VerificationFailed(offset)), ..c }
            } else if offset + data.len() < c.total_bytes {
                Control { phase: Phase::Verifying { offset: (offset + data.len()) as u64 }, ..c }
            } else {
                Control {
                    phase: Phase::Done(WipeOutcome::Success),
                    verification: Verification::Confirmed,
                    ..c
                }
            }
        },
        (Phase::Verifying { .. }, Signal::ReadFailed) => failed(c, IoReason::ReadFailed),
        _ => c,
    }
}

/// The action that a state waits for.
pub open spec fn pending(plan: WipePlan, c: Control) -> Action {
    match c.phase {
        Phase::Pending => Action::QueryUsage,
        Phase::PrecheckFailed(reason) => Action::Finish {
            outcome: WipeOutcome::PreconditionFailed(reason),
            verification: c.verification,
        },
        Phase::Opening => Action::Open,
        Phase::Writing { written, .. } => Action::Write {
            offset: written,
            len: span_len(c.total_bytes as nat, plan.chunk_len as nat, written as nat) as usize,
        },
        Phase::Flushing { .. } => Action::Flush,
        Phase::Rewinding { .. } => Action::Rewind,
        Phase::Verifying { offset } => Action::Read {
            offset,
            len: span_len(c.total_bytes as nat, plan.chunk_len as nat, offset as nat) as usize,
        },
        Phase::Done(outcome) => Action::Finish { outcome, verification: c.verification },
    }
}

/// The numeric bounds that every reachable state keeps.
pub open spec fn control_wf(plan: WipePlan, c: Control) -> bool {
    &&& plan.pass_count >= 1
    &&& plan.chunk_len >= 1
    &&& c.verification != Verification::NotRequested ==> c.phase == Phase::Done(
        WipeOutcome::Success,
    )
    &&& c.phase.is_wiping() || c.phase is Verifying || c.phase == Phase::Done(
        WipeOutcome::Success,
    ) ==> c.opened
    &&& c.phase is Pending || c.phase is Opening || c.phase is PrecheckFailed ==> !c.opened
    &&& !c.opened ==> c.total_bytes == 0
    &&& match c.phase {
        Phase::Writing { pass, written } => 1 <= pass <= plan.pass_count && written
            < c.total_bytes,
        Phase::Flushing { pass } => 1 <= pass <= plan.pass_count,
        Phase::Rewinding { pass } => 1 <= pass <= plan.pass_count,
        Phase::Verifying { offset } => offset < c.total_bytes,
        _ => true,
    }
}

/// The state in which every wipe begins.
pub open spec fn initial_control() -> Control {
    Control {
        phase: Phase::Pending,
        opened: false,
        total_bytes: 0,
        verification: Verification::NotRequested,
    }
}

/// Computes the state that follows `c` when `event` arrives.
pub fn advance(plan: WipePlan, c: Control, event: &Event<'_>) -> (n: Control)
    requires
        control_wf(plan, c),
    ensures
        n == next(plan, c, event@),
{
    match c.phase {
        Phase::Pending => match event {
            Event::Usage { mounted, in_use } => {
                if *mounted {
                    Control { phase: Phase::PrecheckFailed(PreconditionReason::Mounted), ..c }
                } else if *in_use {
                    Control { phase: Phase::PrecheckFailed(PreconditionReason::InUse), ..c }
                } else {
                    Control { phase: Phase::Opening, ..c }
                }
            },
            Event::UsageUnavailable => Control {
                phase: Phase::Done(WipeOutcome::IoFailure(IoReason::UsageUnavailable)),
                ..c
            },
            _ => c,
        },
        Phase::Opening => match event {
            Event::Opened { total_bytes } => Control {
                phase: enter_pass(*total_bytes, 1),
                opened: true,
                total_bytes: *total_bytes,
                ..c
            },
            Event::SizeUnavailable => Control {
                phase: Phase::Done(WipeOutcome::IoFailure(IoReason::DeviceUnavailable)),
                ..c
            },
            Event::OpenFailed => Control {
                phase: Phase::Done(WipeOutcome::IoFailure(IoReason::OpenFailed)),
                ..c
            },
            _ => c,
        },
        Phase::Writing { pass, written } => match event {
            Event::Written => {
                let len: usize = next_span_len(c.total_bytes, plan.chunk_len, written);
                let reached: u64 = written + len as u64;
                if reached < c.total_bytes {
                    Control { phase: Phase::Writing { pass, written: reached }, ..c }
                } else {
                    Control { phase: Phase::Flushing { pass }, ..c }
                }
            },
            Event::WriteFailed => Control {
                phase: Phase::Done(WipeOutcome::IoFailure(IoReason::WriteFailed)),
                ..c
            },
            _ => c,
        },
        Phase::Flushing { pass } => match event {
            Event::Flushed => Control { phase: Phase::Rewinding { pass }, ..c },
            Event::FlushFailed => Control {
                phase: Phase::Done(WipeOutcome::IoFailure(IoReason::FlushFailed)),
                ..c
            },
            _ => c,
        },
        Phase::Rewinding { pass } => match event {
            Event::Rewound => {
                if pass < plan.pass_count {
                    Control { phase: enter_pass(c.total_bytes, pass + 1), ..c }
                } else if !plan.verify {
                    Control { phase: Phase::Done(WipeOutcome::Success), ..c }
                } else {
                    match plan.pattern {
                        Pattern::Random => Control {
                            phase: Phase::Done(WipeOutcome::Success),
                            verification: Verification::Inconclusive,
                            ..c
                        },
                        Pattern::Zero => {
                            if c.total_bytes == 0 {
                                Control {
                                    phase: Phase::Done(WipeOutcome::Success),
                                    verification: Verification::Confirmed,
                                    ..c
                                }
                            } else {
                                Control { phase: Phase::Verifying { offset: 0 }, ..c }
                            }
                        },
                    }
                }
            },
            Event::RewindFailed => Control {
                phase: Phase::Done(WipeOutcome::IoFailure(IoReason::SeekFailed)),
                ..c
            },
            _ => c,
        },
        Phase::Verifying { offset } => match event {
            Event::Chunk(data) => {
                let want: usize = next_span_len(c.total_bytes, plan.chunk_len, offset);
                if data.len() != want {
                    Control {
                        phase: Phase::Done(WipeOutcome::IoFailure(IoReason::ReadFailed)),
                        ..c
                    }
                } else if !is_all_zero(data) {
                    Control { phase: Phase::Done(WipeOutcome::VerificationFailed(offset)), ..c }
                } else {
                    let reached: u64 = offset + want as u64;
                    if reached < c.total_bytes {
                        Control { phase: Phase::Verifying { offset: reached }, ..c }
                    } else {
                        Control {
                            phase: Phase::Done(WipeOutcome::Success),
                            verification: Verification::Confirmed,
                            ..c
                        }
                    }
                }
            },
            Event::ReadFailed => Control {
                phase: Phase::Done(WipeOutcome::IoFailure(IoReason::ReadFailed)),
                ..c
            },
            _ => c,
        },
        Phase::PrecheckFailed(_) => c,
        Phase::Done(_) => c,
    }
}

/// Computes the phase in which pass `pass` begins.
fn enter_pass(total_bytes: u64, pass: u32) -> (phase: Phase)
    ensures
        phase == pass_entry(total_bytes, pass),
{
    if total_bytes > 0 {
        Phase::Writing { pass, written: 0 }
    } else {
        Phase::Flushing { pass }
    }
}

/// Computes the action that state `c` waits for.
pub fn pending_action(plan: WipePlan, c: Control) -> (action: Action)
    ensures
        action == pending(plan, c),
{
    match c.phase {
        Phase::Pending => Action::QueryUsage,
        Phase::PrecheckFailed(reason) => Action::Finish {
            outcome: WipeOutcome::PreconditionFailed(reason),
            verification: c.verification,
        },
        Phase::Opening => Action::Open,
        Phase::Writing { pass: _, written } => Action::Write {
            offset: written,
            len: next_span_len(c.total_bytes, plan.chunk_len, written),
        },
        Phase::Flushing { .. } => Action::Flush,
        Phase::Rewinding { .. } => Action::Rewind,
        Phase::Verifying { offset } => Action::Read {
            offset,
            len: next_span_len(c.total_bytes, plan.chunk_len, offset),
        },
        Phase::Done(outcome) => Action::Finish { outcome, verification: c.verification },
    }
}

} // verus!
