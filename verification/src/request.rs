//! What is asked for one device, and what is known of the device itself.

use vstd::prelude::*;
use crate::outcome::ConfigError;
use crate::pattern::Pattern;

verus! {

/// The mathematical content of a [`WipeRequest`].
pub struct RequestModel {
    pub device_path: Seq<char>,
    pub pattern: Pattern,
    pub pass_count: u32,
    pub verify: bool,
}

/// The wipe of one device as asked for: fixed once made, with at least one
/// pass.
#[derive(Debug)]
pub struct WipeRequest {
    device_path: String,
    pattern: Pattern,
    pass_count: u32,
    verify: bool,
}

impl View for WipeRequest {
    type V = RequestModel;

    closed spec fn view(&self) -> RequestModel {
        RequestModel {
            device_path: self.device_path@,
            pattern: self.pattern,
            pass_count: self.pass_count,
            verify: self.verify,
        }
    }
}

impl WipeRequest {
    #[verifier::type_invariant]
    spec fn at_least_one_pass(self) -> bool {
        self.pass_count >= 1
    }

    /// Makes a request, or refuses a pass count of zero.
    pub fn new(device_path: String, pattern: Pattern, pass_count: u32, verify: bool) -> (r: Result<
        WipeRequest,
        ConfigError,
    >)
        ensures
            pass_count == 0 ==> r == Err::<WipeRequest, ConfigError>(ConfigError::InvalidPassCount),
            pass_count >= 1 ==> r is Ok && r->Ok_0@ == (RequestModel {
                device_path: device_path@,
                pattern,
                pass_count,
                verify,
            }),
    {
        if pass_count == 0 {
            Err(ConfigError::InvalidPassCount)
        } else {
            Ok(WipeRequest { device_path, pattern, pass_count, verify })
        }
    }

    /// Path of the device to wipe.
    pub fn device_path(&self) -> (path: &String)
        ensures
            path@ == self@.device_path,
    {
        &self.device_path
    }

    /// Fill used for every pass.
    pub fn pattern(&self) -> (pattern: Pattern)
        ensures
            pattern == self@.pattern,
    {
        self.pattern
    }

    /// Number of passes, never zero.
    pub fn pass_count(&self) -> (count: u32)
        ensures
            count == self@.pass_count,
            count >= 1,
    {
        proof {
            use_type_invariant(self);
        }
        self.pass_count
    }

    /// Whether the device is read back after the last pass.
    pub fn verify(&self) -> (verify: bool)
        ensures
            verify == self@.verify,
    {
        self.verify
    }
}

/// A device as resolved at the start of its wipe: the size is read once and
/// held for the rest of the wipe.
#[derive(Debug)]
pub struct DeviceDescriptor {
    pub path: String,
    pub total_bytes: u64,
}

/// How far the pass under way has come.
#[derive(Clone, Copy, Debug, PartialEq, Eq, Structural)]
pub struct PassProgress {
    /// Bytes of this pass that are on the device.
    pub bytes_written: u64,
    /// Number of the pass, counted from 1.
    pub pass_index: u32,
}

} // verus!
