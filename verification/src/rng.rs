use vstd::prelude::*;

use rand::rngs::SmallRng;
use rand::Rng;
use rand::SeedableRng;

verus! {

/// The small, fast pseudo-random generator of `rand`.
#[verifier::external_type_specification]
#[verifier::external_body]
pub struct ExSmallRng(SmallRng);

/// The random number generator of a game, with a record of the integer
/// draws made through `gen_range_u32`: the range asked for and the value
/// drawn, oldest first. Draws made directly on the generator (field 0) are
/// not recorded.
pub struct GameRng(pub SmallRng, Ghost<Seq<(u32, u32, u32)>>);

/// `SmallRng::from_entropy` of `rand`, seeded from the operating system.
/// Nothing is claimed of the state it returns.
#[verifier::external_body]
fn small_rng_from_entropy() -> SmallRng {
    SmallRng::from_entropy()
}

/// `Rng::gen_range` of `rand` on the half-open range `low..high`: the
/// sample lies in the range, which must not be empty (`gen_range` panics on
/// an empty range). Which value comes is up to the generator.
#[verifier::external_body]
fn sample_u32(rng: &mut SmallRng, low: u32, high: u32) -> (r: u32)
    requires
        low < high,
    ensures
        low <= r < high,
{
    rng.gen_range(low..high)
}

impl GameRng {
    /// The integer draws made so far, as `(low, high, drawn)`.
    pub closed spec fn draws(&self) -> Seq<(u32, u32, u32)> {
        self.1@
    }

    /// A generator seeded from the operating system, with no draws made.
    pub fn from_entropy() -> (rng: GameRng)
        ensures
            rng.draws() == Seq::<(u32, u32, u32)>::empty(),
    {
        GameRng(small_rng_from_entropy(), Ghost(Seq::empty()))
    }

    /// A random integer in `low..high`; the draw is added to the record.
    pub fn gen_range_u32(&mut self, low: u32, high: u32) -> (r: u32)
        requires
            low < high,
        ensures
            low <= r < high,
            final(self).draws() == old(self).draws().push((low, high, r)),
    {
        let r = sample_u32(&mut self.0, low, high);
        self.1 = Ghost(self.1@.push((low, high, r)));
        r
    }
}

} // verus!
