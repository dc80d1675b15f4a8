//! The command line of a batch: which devices, which pattern, how many
//! passes, and whether to verify.

use vstd::prelude::*;
use vstd::utf8::encode_utf8;
use crate::decimal::{parse_u64, unsigned_decimal};
use crate::outcome::ConfigError;
use crate::pattern::Pattern;

verus! {

/// The mathematical content of a [`BatchConfig`].
pub struct BatchModel {
    pub devices: Seq<Seq<char>>,
    pub pattern: Pattern,
    pub pass_count: u32,
    pub verify: bool,
}

/// The settings that all devices of one invocation share, and the devices
/// themselves in the order given. There is at least one device and at least
/// one pass.
#[derive(Debug)]
pub struct BatchConfig {
    devices: Vec<String>,
    pattern: Pattern,
    pass_count: u32,
    verify: bool,
}

impl View for BatchConfig {
    type V = BatchModel;

    closed spec fn view(&self) -> BatchModel {
        BatchModel {
            devices: self.devices.deep_view(),
            pattern: self.pattern,
            pass_count: self.pass_count,
            verify: self.verify,
        }
    }
}

/// The settings in force before any flag is read: zero fill, one pass, no
/// verification, no device.
pub open spec fn default_batch() -> BatchModel {
    BatchModel { devices: Seq::empty(), pattern: Pattern::Zero, pass_count: 1, verify: false }
}

/// The pass count that the argument `arg` states, if it states one: an
/// unsigned decimal number from 1 to `u32::MAX`.
pub open spec fn stated_pass_count(arg: Seq<char>) -> Option<u32> {
    match unsigned_decimal(encode_utf8(arg)) {
        Some(v) => if 1 <= v <= u32::MAX {
            Some(v as u32)
        } else {
            None
        },
        None => None,
    }
}

/// The settings after the arguments from position `i` on are read into
/// `acc`, or the first error met.
///
/// `--zero` and `--random` choose the pattern, the later one winning;
/// `--verify` asks for verification; `--passes` takes the next argument as
/// the pass count; every other argument names a device.
pub open spec fn read_args(args: Seq<Seq<char>>, i: int, acc: BatchModel) -> Result<
    BatchModel,
    ConfigError,
>
    decreases args.len() - i,
{
    if i < 0 || i >= args.len() {
        Ok(acc)
    } else if args[i] == "--random"@ {
        read_args(args, i + 1, BatchModel { pattern: Pattern::Random, ..acc })
    } else if args[i] == "--zero"@ {
        read_args(args, i + 1, BatchModel { pattern: Pattern::Zero, ..acc })
    } else if args[i] == "--verify"@ {
        read_args(args, i + 1, BatchModel { verify: true, ..acc })
    } else if args[i] == "--passes"@ {
        if i + 1 >= args.len() {
            Err(ConfigError::MissingPassCount)
        } else {
            match stated_pass_count(args[i + 1]) {
                Some(pass_count) => read_args(args, i + 2, BatchModel { pass_count, ..acc }),
                None => Err(ConfigError::InvalidPassCount),
            }
        }
    } else {
        read_args(args, i + 1, BatchModel { devices: acc.devices.push(args[i]), ..acc })
    }
}

/// What the arguments `args` ask for: the settings read from left to right,
/// refused with `NoDevices` when they name no device.
pub open spec fn batch_of(args: Seq<Seq<char>>) -> Result<BatchModel, ConfigError> {
    match read_args(args, 0, default_batch()) {
        Ok(batch) => if batch.devices.len() == 0 {
            Err(ConfigError::NoDevices)
        } else {
            Ok(batch)
        },
        Err(e) => Err(e),
    }
}

/// Reads a pass count from an argument.
pub fn parse_pass_count(arg: &String) -> (r: Option<u32>)
    ensures
        r == stated_pass_count(arg@),
{
    match parse_u64(arg.as_str().as_bytes()) {
        Some(v) => if 1 <= v && v <= 0xffff_ffff {
            Some(v as u32)
        } else {
            None
        },
        None => None,
    }
}

impl BatchConfig {
    #[verifier::type_invariant]
    spec fn is_valid(self) -> bool {
        self.pass_count >= 1 && self.devices.len() >= 1
    }

    /// Makes a batch, or refuses an empty device list or a pass count of
    /// zero; the empty device list is reported first.
    pub fn new(devices: Vec<String>, pattern: Pattern, pass_count: u32, verify: bool) -> (r: Result<
        BatchConfig,
        ConfigError,
    >)
        ensures
            match r {
                Ok(config) => devices.len() > 0 && pass_count >= 1 && config@ == (BatchModel {
                    devices: devices.deep_view(),
                    pattern,
                    pass_count,
                    verify,
                }),
                Err(e) => if devices.len() == 0 {
                    e == ConfigError::NoDevices
                } else {
                    pass_count == 0 && e == ConfigError::InvalidPassCount
                },
            },
    {
        if devices.len() == 0 {
            Err(ConfigError::NoDevices)
        } else if pass_count == 0 {
            Err(ConfigError::InvalidPassCount)
        } else {
            Ok(BatchConfig { devices, pattern, pass_count, verify })
        }
    }

    /// The devices in the order given; never empty.
    pub fn devices(&self) -> (devices: &Vec<String>)
        ensures
            devices.deep_view() == self@.devices,
            devices.len() >= 1,
    {
        proof {
            use_type_invariant(self);
        }
        &self.devices
    }

    /// Fill used for every pass.
    pub fn pattern(&self) -> (pattern: Pattern)
        ensures
            pattern == self@.pattern,
    {
        self.pattern
    }

    /// Number of passes, never zero.
    pub fn pass_count(&self) -> (count: u32)
        ensures
            count == self@.pass_count,
            count >= 1,
    {
        proof {
            use_type_invariant(self);
        }
        self.pass_count
    }

    /// Whether each device is read back after its last pass.
    pub fn verify(&self) -> (verify: bool)
        ensures
            verify == self@.verify,
    {
        self.verify
    }
}

/// Reads the arguments of an invocation, the program's own name left out.
///
/// Returns the batch that [`batch_of`] describes, or the error it describes:
/// `MissingPassCount` where `--passes` stands last, `InvalidPassCount` where
/// what follows `--passes` is no number from 1 to `u32::MAX`, `NoDevices`
/// where no argument names a device.
pub fn parse_args(args: &Vec<String>) -> (r: Result<BatchConfig, ConfigError>)
    ensures
        match r {
            Ok(config) => batch_of(args.deep_view()) == Ok::<BatchModel, ConfigError>(config@),
            Err(e) => batch_of(args.deep_view()) == Err::<BatchModel, ConfigError>(e),
        },
{
    let random_flag = "--random".to_owned();
    let zero_flag = "--zero".to_owned();
    let verify_flag = "--verify".to_owned();
    let passes_flag = "--passes".to_owned();
    let mut devices: Vec<String> = Vec::new();
    let mut pattern = Pattern::Zero;
    let mut pass_count: u32 = 1;
    let mut verify = false;
    let n: usize = args.len();
    let ghost all = args.deep_view();
    let mut i: usize = 0;
    assert(devices.deep_view() =~= Seq::<Seq<char>>::empty());
    while i < n
        invariant
            i <= n,
            n == args.len(),
            all == args.deep_view(),
            all.len() == n,
            pass_count >= 1,
            random_flag@ == "--random"@,
            zero_flag@ == "--zero"@,
            verify_flag@ == "--verify"@,
            passes_flag@ == "--passes"@,
            read_args(all, 0, default_batch()) == read_args(
                all,
                i as int,
                BatchModel { devices: devices.deep_view(), pattern, pass_count, verify },
            ),
        decreases n - i,
    {
        let arg: &String = &args[i];
        assert(all[i as int] == arg@);
        if *arg == random_flag {
            pattern = Pattern::Random;
            i = i + 1;
        } else if *arg == zero_flag {
            pattern = Pattern::Zero;
            i = i + 1;
        } else if *arg == verify_flag {
            verify = true;
            i = i + 1;
        } else if *arg == passes_flag {
            if i + 1 >= n {
                return Err(ConfigError::MissingPassCount);
            }
            assert(all[i + 1] == args[i + 1]@);
            match parse_pass_count(&args[i + 1]) {
                Some(count) => {
                    pass_count = count;
                },
                None => {
                    return Err(ConfigError::InvalidPassCount);
                },
            }
            i = i + 2;
        } else {
            let ghost before = devices.deep_view();
            devices.push(arg.clone());
            assert(devices.deep_view() =~= before.push(arg@));
            i = i + 1;
        }
    }
    if devices.len() == 0 {
        return Err(ConfigError::NoDevices);
    }
    Ok(BatchConfig { devices, pattern, pass_count, verify })
}

} // verus!
