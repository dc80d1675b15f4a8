//! Terminal results of a wipe and the reasons behind them.

use vstd::prelude::*;

verus! {

/// Why a device was refused before any write.
#[derive(Clone, Copy, Debug, PartialEq, Eq, Structural)]
pub enum PreconditionReason {
    /// The device appears in the mount table.
    Mounted,
    /// Another process holds the device open.
    InUse,
}

/// Which operation on the device went wrong.
#[derive(Clone, Copy, Debug, PartialEq, Eq, Structural)]
pub enum IoReason {
    /// The mount table or the list of processes that hold the device open
    /// could not be read, so the device cannot be told to be free.
    UsageUnavailable,
    /// A random fill was asked for and the generator could not be seeded.
    RandomSourceUnavailable,
    /// The device's size could not be resolved.
    DeviceUnavailable,
    /// The device could not be opened for writing.
    OpenFailed,
    /// A write was rejected.
    WriteFailed,
    /// The flush at the end of a pass was rejected.
    FlushFailed,
    /// Repositioning to offset 0 was rejected.
    SeekFailed,
    /// A read during verification was rejected or came back short.
    ReadFailed,
    /// The worker in charge of the device ended without reporting.
    WorkerAborted,
}

/// The single terminal result of wiping one device.
#[derive(Clone, Copy, Debug, PartialEq, Eq, Structural)]
pub enum WipeOutcome {
    /// Every pass was written and flushed, and verification, if it ran, found
    /// nothing wrong.
    Success,
    /// The device was mounted or in use; nothing was written.
    PreconditionFailed(PreconditionReason),
    /// An operation on the device failed; the remaining work was abandoned.
    IoFailure(IoReason),
    /// Read-back after a zero wipe found a non-zero byte in the chunk that
    /// starts at this offset.
    VerificationFailed(u64),
}

/// What the read-back after the last pass established.
#[derive(Clone, Copy, Debug, PartialEq, Eq, Structural)]
pub enum Verification {
    /// Verification was not asked for, or the wipe ended before it.
    NotRequested,
    /// The whole device was read back and every byte was zero.
    Confirmed,
    /// Verification was asked for after a random fill, which has no expected
    /// content to compare with: nothing was read, and the caller should warn.
    Inconclusive,
}

/// A request or a batch that is refused before any device is touched.
#[derive(Clone, Copy, Debug, PartialEq, Eq, Structural)]
pub enum ConfigError {
    /// The pass count is zero, is not a number, or does not fit in 32 bits.
    InvalidPassCount,
    /// `--passes` stands last, with no number after it.
    MissingPassCount,
    /// No device was named.
    NoDevices,
    /// The transfer buffer would be empty.
    InvalidBufferSize,
}

impl WipeOutcome {
    /// Whether this outcome counts as a completed wipe.
    pub open spec fn spec_is_success(self) -> bool {
        self == WipeOutcome::Success
    }

    /// Whether this outcome counts as a completed wipe.
    #[verifier::when_used_as_spec(spec_is_success)]
    pub fn is_success(self) -> (b: bool)
        ensures
            b == self.spec_is_success(),
    {
        match self {
            WipeOutcome::Success => true,
            _ => false,
        }
    }
}

} // verus!
