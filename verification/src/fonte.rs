//! The shared source of randomness. Every probabilistic check of the engine
//! consumes draws from one exclusively owned `Fonte`, in a fixed order, so a
//! seeded source reproduces a whole match exactly.

use vstd::prelude::*;

verus! {

#[verifier::external_type_specification]
#[verifier::external_body]
pub struct ExStdRng(rand::rngs::StdRng);

/// A handle on a deterministic pseudo-random generator. Nothing is assumed
/// about the values it yields beyond the range each draw was asked for.
pub struct Fonte {
    rng: rand::rngs::StdRng,
}

impl Fonte {
    /// Relies on rand::SeedableRng::seed_from_u64: builds a deterministic
    /// generator from the seed; the same seed always gives the same stream.
    #[verifier::external_body]
    pub fn nova(semente: u64) -> Fonte {
        Fonte { rng: <rand::rngs::StdRng as rand::SeedableRng>::seed_from_u64(semente) }
    }

    /// Relies on rand::Rng::gen_range on a half-open integer range: the
    /// result is drawn uniformly from `[inicio, fim)`; the call panics on an
    /// empty range, which the precondition rules out.
    #[verifier::external_body]
    pub(crate) fn sortear(&mut self, inicio: i64, fim: i64) -> (r: i64)
        requires
            inicio < fim,
        ensures
            inicio <= r < fim,
    {
        rand::Rng::gen_range(&mut self.rng, inicio..fim)
    }
}

} // verus!
