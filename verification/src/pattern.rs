//! Fill patterns and the buffers that carry them.

use vstd::prelude::*;
use crate::outcome::IoReason;

verus! {

/// The content used for one overwrite pass.
#[derive(Clone, Copy, Debug, PartialEq, Eq, Structural)]
pub enum Pattern {
    /// Every byte is zero.
    Zero,
    /// Every byte is drawn from a generator that the wipe owns and that is
    /// seeded from the operating system.
    Random,
}

/// A sequence of `len` zero bytes.
pub open spec fn zeros(len: nat) -> Seq<u8> {
    Seq::new(len, |i: int| 0u8)
}

/// Every byte of `bytes` is zero.
pub open spec fn all_zero(bytes: Seq<u8>) -> bool {
    forall|i: int| 0 <= i < bytes.len() ==> bytes[i] == 0
}

/// `rand::rngs::StdRng`, a generator that holds its own state.
#[verifier::external_type_specification]
#[verifier::external_body]
pub struct ExStdRng(rand::rngs::StdRng);

/// `rand::SeedableRng::from_rng` for `StdRng`, with `rand::rngs::OsRng` as
/// the source of the seed: a fresh generator, or `None` where the operating
/// system did not supply the seed. Nothing is claimed of which it is, nor of
/// the generator.
#[verifier::external_body]
pub(crate) fn seeded_generator() -> (rng: Option<rand::rngs::StdRng>) {
    <rand::rngs::StdRng as rand::SeedableRng>::from_rng(rand::rngs::OsRng).ok()
}

/// `rand::RngCore::fill_bytes` on the bytes of `buf`: the generator writes
/// its output over the slice it is handed, in place. The contract claims only
/// that the length stays as it was; of the bytes themselves it claims
/// nothing, since they differ from one generator to the next.
#[verifier::external_body]
fn fill_from_generator(rng: &mut rand::rngs::StdRng, buf: &mut Vec<u8>)
    ensures
        final(buf)@.len() == old(buf)@.len(),
{
    rand::RngCore::fill_bytes(rng, &mut buf[..]);
}

/// Overwrites every byte of `buf` with zero.
pub fn fill_zero(buf: &mut Vec<u8>)
    ensures
        final(buf)@ == zeros(old(buf)@.len()),
{
    let n: usize = buf.len();
    let mut i: usize = 0;
    while i < n
        invariant
            i <= n,
            buf@.len() == n,
            forall|k: int| 0 <= k < i ==> buf@[k] == 0,
        decreases n - i,
    {
        buf.set(i, 0u8);
        i = i + 1;
    }
    assert(buf@ =~= zeros(n as nat));
}

/// The mathematical content of a [`PatternGenerator`].
pub struct GeneratorModel {
    /// The pattern it produces.
    pub kind: Pattern,
    /// Whether it can fill a buffer: always for `Zero`; for `Random`, if it
    /// holds a seeded generator.
    pub ready: bool,
}

/// The source of a wipe's pattern. For a random fill it owns the generator,
/// so that no two wipes draw from the same one.
pub struct PatternGenerator {
    kind: Pattern,
    source: Option<rand::rngs::StdRng>,
}

impl View for PatternGenerator {
    type V = GeneratorModel;

    closed spec fn view(&self) -> GeneratorModel {
        GeneratorModel {
            kind: self.kind,
            ready: self.kind == Pattern::Zero || self.source is Some,
        }
    }
}

impl PatternGenerator {
    /// Makes the generator for `kind` from what seeding has given. It is
    /// ready unless the pattern is `Random` and there is no seeded generator.
    pub fn with_source(kind: Pattern, source: Option<rand::rngs::StdRng>) -> (g: PatternGenerator)
        ensures
            g@ == (GeneratorModel { kind, ready: kind == Pattern::Zero || source is Some }),
    {
        PatternGenerator { kind, source }
    }

    /// Makes the generator for `kind`, seeding it from the operating system
    /// where the pattern is `Random`. A `Zero` generator is always ready; a
    /// `Random` one is ready exactly if the system supplied the seed.
    pub fn new(kind: Pattern) -> (g: PatternGenerator)
        ensures
            g@.kind == kind,
            kind == Pattern::Zero ==> g@.ready,
    {
        match kind {
            Pattern::Zero => PatternGenerator::with_source(kind, None),
            Pattern::Random => PatternGenerator::with_source(kind, seeded_generator()),
        }
    }

    /// The pattern it produces.
    pub fn kind(&self) -> (kind: Pattern)
        ensures
            kind == self@.kind,
    {
        self.kind
    }

    /// Whether it can fill a buffer.
    pub fn is_ready(&self) -> (ready: bool)
        ensures
            ready == self@.ready,
    {
        match self.kind {
            Pattern::Zero => true,
            Pattern::Random => self.source.is_some(),
        }
    }

    /// Overwrites the whole of `buf` in place with the pattern.
    ///
    /// A generator that is ready fills the buffer: with zeros for `Zero`;
    /// for `Random` the length is unchanged and nothing is promised of the
    /// content. A generator that is not ready fails with
    /// `RandomSourceUnavailable` and leaves the buffer as it is.
    pub fn fill(&mut self, buf: &mut Vec<u8>) -> (r: Result<(), IoReason>)
        ensures
            final(self)@ == old(self)@,
            final(buf)@.len() == old(buf)@.len(),
            old(self)@.ready ==> r is Ok,
            !old(self)@.ready ==> r == Err::<(), IoReason>(IoReason::RandomSourceUnavailable)
                && final(buf)@ == old(buf)@,
            r is Ok && old(self)@.kind == Pattern::Zero ==> final(buf)@ == zeros(old(buf)@.len()),
    {
        match self.kind {
            Pattern::Zero => {
                fill_zero(buf);
                Ok(())
            },
            Pattern::Random => match &mut self.source {
                Some(rng) => {
                    fill_from_generator(rng, buf);
                    Ok(())
                },
                None => Err(IoReason::RandomSourceUnavailable),
            },
        }
    }
}

/// Tells whether every byte of `data` is zero.
pub fn is_all_zero(data: &[u8]) -> (clean: bool)
    ensures
        clean == all_zero(data@),
{
    let n: usize = data.len();
    let mut i: usize = 0;
    while i < n
        invariant
            i <= n,
            n == data@.len(),
            forall|k: int| 0 <= k < i ==> data@[k] == 0,
        decreases n - i,
    {
        if data[i] != 0 {
            return false;
        }
        i = i + 1;
    }
    true
}

} // verus!
