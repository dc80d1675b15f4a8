//! The wipe of one device, from the precondition check to its outcome.
//!
//! A [`DeviceWipe`] never touches a device. Its owner carries out the action
//! it names, reports the result with [`DeviceWipe::step`], and repeats until
//! the action is [`Action::Finish`].

use vstd::prelude::*;
use vstd::slice::slice_subrange;
use crate::control::{
    advance, control_wf, initial_control, next, pending, pending_action, Action, Control, Event,
    Phase, Signal, WipePlan,
};
use crate::history::{
    empty_history, history_wf, lemma_transition_keeps_invariant, next_history, starts_write,
    History,
};
use crate::outcome::{ConfigError, IoReason, Verification, WipeOutcome};
use crate::pattern::{seeded_generator, zeros, GeneratorModel, Pattern, PatternGenerator};
use crate::request::{DeviceDescriptor, PassProgress, RequestModel, WipeRequest};
use crate::schedule::{next_span_len, span_len};

verus! {

/// Size of the transfer buffer that callers are advised to use: 1 MiB.
pub const DEFAULT_CHUNK_LEN: usize = 1048576;

/// The mathematical content of a [`DeviceWipe`].
pub struct WipeModel {
    pub path: Seq<char>,
    pub plan: WipePlan,
    pub control: Control,
    /// Content of the transfer buffer.
    pub buffer: Seq<u8>,
    pub history: History,
    /// The source of the pattern.
    pub generator: GeneratorModel,
}

impl WipeModel {
    /// The invariant of every wipe.
    pub open spec fn wf(self) -> bool {
        &&& control_wf(self.plan, self.control)
        &&& self.buffer.len() == self.plan.chunk_len
        &&& history_wf(self.plan, self.control, self.history, self.buffer)
        &&& self.generator.kind == self.plan.pattern
        &&& self.generator.kind == Pattern::Zero ==> self.generator.ready
        &&& !self.generator.ready ==> self.control.phase == Phase::Done(
            WipeOutcome::IoFailure(IoReason::RandomSourceUnavailable),
        )
    }

    /// The wipe after signal `s`, with `buffer` as the buffer's new content.
    pub open spec fn after(self, s: Signal, buffer: Seq<u8>) -> WipeModel {
        WipeModel {
            control: next(self.plan, self.control, s),
            buffer,
            history: next_history(self.plan, self.control, self.history, s, buffer),
            ..self
        }
    }

    /// The terminal outcome, once there is one.
    pub open spec fn outcome(self) -> Option<WipeOutcome> {
        match self.control.phase {
            Phase::PrecheckFailed(reason) => Some(WipeOutcome::PreconditionFailed(reason)),
            Phase::Done(outcome) => Some(outcome),
            _ => None,
        }
    }
}

/// A wipe as it is set up: nothing known of the device, nothing issued, the
/// buffer zeroed, the source of the pattern ready.
pub open spec fn fresh(path: Seq<char>, plan: WipePlan) -> WipeModel {
    WipeModel {
        path,
        plan,
        control: initial_control(),
        buffer: zeros(plan.chunk_len as nat),
        history: empty_history(),
        generator: GeneratorModel { kind: plan.pattern, ready: true },
    }
}

/// A wipe whose random generator could not be seeded: it has ended before it
/// began, in `IoFailure(RandomSourceUnavailable)`.
pub open spec fn unseeded(path: Seq<char>, plan: WipePlan) -> WipeModel {
    WipeModel {
        path,
        plan,
        control: Control {
            phase: Phase::Done(WipeOutcome::IoFailure(IoReason::RandomSourceUnavailable)),
            ..initial_control()
        },
        buffer: zeros(plan.chunk_len as nat),
        history: empty_history(),
        generator: GeneratorModel { kind: plan.pattern, ready: false },
    }
}

/// The parameters with which a wipe for `request` runs.
pub open spec fn plan_of(request: RequestModel, chunk_len: usize) -> WipePlan {
    WipePlan {
        pattern: request.pattern,
        pass_count: request.pass_count,
        verify: request.verify,
        chunk_len,
    }
}

/// The state of one device's wipe together with its transfer buffer.
pub struct DeviceWipe {
    path: String,
    plan: WipePlan,
    control: Control,
    buffer: Vec<u8>,
    generator: PatternGenerator,
    history: Ghost<History>,
}

impl View for DeviceWipe {
    type V = WipeModel;

    closed spec fn view(&self) -> WipeModel {
        WipeModel {
            path: self.path@,
            plan: self.plan,
            control: self.control,
            buffer: self.buffer@,
            history: self.history@,
            generator: self.generator@,
        }
    }
}

impl DeviceWipe {
    /// Sets up the wipe that `request` asks for, with a transfer buffer of
    /// `chunk_len` bytes and with `source` as what seeding the random
    /// generator has given.
    ///
    /// An empty buffer is refused. Otherwise the wipe is fresh, unless the
    /// pattern is `Random` and there is no generator: then the wipe has
    /// ended already, in `IoFailure(RandomSourceUnavailable)`.
    pub fn with_source(
        request: WipeRequest,
        chunk_len: usize,
        source: Option<rand::rngs::StdRng>,
    ) -> (r: Result<DeviceWipe, ConfigError>)
        ensures
            chunk_len == 0 ==> r is Err && r->Err_0 == ConfigError::InvalidBufferSize,
            chunk_len > 0 ==> r is Ok && r->Ok_0@.wf() && r->Ok_0@ == if request@.pattern
                == Pattern::Zero || source is Some {
                fresh(request@.device_path, plan_of(request@, chunk_len))
            } else {
                unseeded(request@.device_path, plan_of(request@, chunk_len))
            },
    {
        if chunk_len == 0 {
            return Err(ConfigError::InvalidBufferSize);
        }
        let plan = WipePlan {
            pattern: request.pattern(),
            pass_count: request.pass_count(),
            verify: request.verify(),
            chunk_len,
        };
        let generator = PatternGenerator::with_source(plan.pattern, source);
        let phase = if generator.is_ready() {
            Phase::Pending
        } else {
            Phase::Done(WipeOutcome::IoFailure(IoReason::RandomSourceUnavailable))
        };
        let buffer: Vec<u8> = vec![0u8; chunk_len];
        assert(buffer@ =~= zeros(chunk_len as nat));
        let wipe = DeviceWipe {
            path: request.device_path().clone(),
            plan,
            control: Control {
                phase,
                opened: false,
                total_bytes: 0,
                verification: Verification::NotRequested,
            },
            buffer,
            generator,
            history: Ghost(empty_history()),
        };
        Ok(wipe)
    }

    /// Sets up the wipe that `request` asks for, with a transfer buffer of
    /// `chunk_len` bytes. For a random fill the wipe gets a generator of its
    /// own, seeded from the operating system.
    ///
    /// An empty buffer is refused. A zero wipe is always fresh. A random
    /// wipe is fresh if the seed was supplied; if not, it has ended already,
    /// in `IoFailure(RandomSourceUnavailable)`.
    pub fn new(request: WipeRequest, chunk_len: usize) -> (r: Result<DeviceWipe, ConfigError>)
        ensures
            chunk_len == 0 ==> r is Err && r->Err_0 == ConfigError::InvalidBufferSize,
            chunk_len > 0 ==> r is Ok && r->Ok_0@.wf() && (r->Ok_0@ == fresh(
                request@.device_path,
                plan_of(request@, chunk_len),
            ) || (request@.pattern == Pattern::Random && r->Ok_0@ == unseeded(
                request@.device_path,
                plan_of(request@, chunk_len),
            ))),
    {
        if chunk_len == 0 {
            return Err(ConfigError::InvalidBufferSize);
        }
        let source = match request.pattern() {
            Pattern::Zero => None,
            Pattern::Random => seeded_generator(),
        };
        DeviceWipe::with_source(request, chunk_len, source)
    }

    /// Takes in what happened to the pending action and returns the action
    /// that is pending now.
    ///
    /// The state moves as [`next`] says and the history as [`next_history`]
    /// says. The buffer is refilled with the pattern exactly when the new
    /// action is a write that was not pending before.
    pub fn step(&mut self, event: Event<'_>) -> (action: Action)
        requires
            old(self)@.wf(),
        ensures
            final(self)@.wf(),
            final(self)@ == old(self)@.after(event@, final(self)@.buffer),
            starts_write(old(self)@.plan, old(self)@.control, event@) && old(self)@.plan.pattern
                == Pattern::Zero ==> final(self)@.buffer == zeros(old(self)@.plan.chunk_len as nat),
            !starts_write(old(self)@.plan, old(self)@.control, event@) ==> final(self)@.buffer
                == old(self)@.buffer,
            action == pending(final(self)@.plan, final(self)@.control),
    {
        let ghost before = self@;
        let c = self.control;
        let n = advance(self.plan, c, &event);
        let refill = match n.phase {
            Phase::Writing { .. } => n.phase != c.phase,
            _ => false,
        };
        if refill {
            let _ = self.generator.fill(&mut self.buffer);
        }
        self.control = n;
        proof {
            self.history = Ghost(
                next_history(before.plan, before.control, before.history, event@, self.buffer@),
            );
            lemma_transition_keeps_invariant(
                before.plan,
                before.control,
                before.history,
                event@,
                before.buffer,
                self.buffer@,
            );
        }
        pending_action(self.plan, self.control)
    }

    /// The action that the wipe waits for.
    pub fn pending(&self) -> (action: Action)
        ensures
            action == pending(self@.plan, self@.control),
    {
        pending_action(self.plan, self.control)
    }

    /// The bytes to put on the device when the pending action is a write:
    /// the head of the buffer, as long as the write. Empty otherwise.
    pub fn payload(&self) -> (bytes: &[u8])
        requires
            self@.wf(),
        ensures
            bytes@ == match self@.control.phase {
                Phase::Writing { written, .. } => self@.buffer.subrange(
                    0,
                    span_len(
                        self@.control.total_bytes as nat,
                        self@.plan.chunk_len as nat,
                        written as nat,
                    ) as int,
                ),
                _ => Seq::<u8>::empty(),
            },
    {
        match self.control.phase {
            Phase::Writing { pass: _, written } => {
                let len = next_span_len(self.control.total_bytes, self.plan.chunk_len, written);
                slice_subrange(self.buffer.as_slice(), 0, len)
            },
            _ => slice_subrange(self.buffer.as_slice(), 0, 0),
        }
    }

    /// The phase the wipe is in.
    pub fn phase(&self) -> (phase: Phase)
        ensures
            phase == self@.control.phase,
    {
        self.control.phase
    }

    /// The terminal outcome, or `None` while the wipe is under way.
    pub fn outcome(&self) -> (outcome: Option<WipeOutcome>)
        ensures
            outcome == self@.outcome(),
    {
        match self.control.phase {
            Phase::PrecheckFailed(reason) => Some(WipeOutcome::PreconditionFailed(reason)),
            Phase::Done(outcome) => Some(outcome),
            _ => None,
        }
    }

    /// What verification has established.
    pub fn verification(&self) -> (verification: Verification)
        ensures
            verification == self@.control.verification,
    {
        self.control.verification
    }

    /// The parameters the wipe runs with.
    pub fn plan(&self) -> (plan: WipePlan)
        ensures
            plan == self@.plan,
    {
        self.plan
    }

    /// The device as resolved when it was opened: `Some` from then on,
    /// with the size that was resolved; `None` for a wipe that has not
    /// opened its device, whether it is still to do so or has ended first.
    pub fn descriptor(&self) -> (d: Option<DeviceDescriptor>)
        ensures
            d is Some <==> self@.control.opened,
            d is Some ==> d->Some_0.path@ == self@.path && d->Some_0.total_bytes
                == self@.control.total_bytes,
    {
        if self.control.opened {
            Some(
                DeviceDescriptor {
                    path: self.path.clone(),
                    total_bytes: self.control.total_bytes,
                },
            )
        } else {
            None
        }
    }

    /// Progress of the pass under way: the bytes already on the device while
    /// writing, the whole device while flushing or rewinding. `None` outside
    /// the passes.
    pub fn progress(&self) -> (p: Option<PassProgress>)
        ensures
            p == match self@.control.phase {
                Phase::Writing { pass, written } => Some(
                    PassProgress { bytes_written: written, pass_index: pass },
                ),
                Phase::Flushing { pass } | Phase::Rewinding { pass } => Some(
                    PassProgress {
                        bytes_written: self@.control.total_bytes,
                        pass_index: pass,
                    },
                ),
                _ => None,
            },
    {
        match self.control.phase {
            Phase::Writing { pass, written } => Some(
                PassProgress { bytes_written: written, pass_index: pass },
            ),
            Phase::Flushing { pass } => Some(
                PassProgress { bytes_written: self.control.total_bytes, pass_index: pass },
            ),
            Phase::Rewinding { pass } => Some(
                PassProgress { bytes_written: self.control.total_bytes, pass_index: pass },
            ),
            _ => None,
        }
    }
}

} // verus!
