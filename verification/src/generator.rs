//! The random generator: the code that the library takes on trust.
//!
//! The queue shuffles its bags with a ChaCha generator that is seeded from
//! any hashable value. The generator, its seeding and the shuffle come from
//! the crates `rand_chacha`, `rand_seeder` and `rand`. The verifier does not
//! read them: it believes what the contracts below say of them, which is
//! little.

use crate::shape::MinoType;
use rand::seq::SliceRandom;
use rand_chacha::ChaCha20Rng;
use rand_seeder::Seeder;
use std::hash::Hash;
use vstd::prelude::*;

verus! {

/// `rand_chacha::ChaCha20Rng`, the generator that the queue shuffles with.
/// Nothing inside it is visible to proofs.
#[verifier::external_type_specification]
#[verifier::external_body]
pub struct ExChaCha20Rng(ChaCha20Rng);

/// `rand_seeder::Seeder`, which turns a hashable value into seeds. Nothing
/// inside it is visible to proofs.
#[verifier::external_type_specification]
#[verifier::external_body]
pub struct ExSeeder(Seeder);

/// Makes a seeder from a seed with `Seeder::from`, which hashes the seed.
/// Nothing is claimed of the seeder.
#[verifier::external_body]
pub(crate) fn seeder_from<H: Hash>(rng_seed: &H) -> (seeder: Seeder) {
    Seeder::from(rng_seed)
}

/// Makes a generator with `Seeder::into_rng`, which draws a seed from the
/// seeder and builds the generator from it. Nothing is claimed of the
/// generator.
#[verifier::external_body]
pub(crate) fn generator_from(seeder: &mut Seeder) -> (rng: ChaCha20Rng) {
    seeder.into_rng()
}

/// Shuffles seven pieces with `rand::seq::SliceRandom::shuffle`. The call
/// reorders its slice in place by swapping elements, so the pieces that come
/// back are those that went in. Their order depends on the generator, and
/// nothing is claimed of it.
#[verifier::external_body]
pub(crate) fn shuffle_bag(bag: [MinoType; 7], rng: &mut ChaCha20Rng) -> (shuffled: [MinoType; 7])
    ensures
        shuffled@.to_multiset() == bag@.to_multiset(),
{
    let mut shuffled = bag;
    shuffled.shuffle(rng);
    shuffled
}

/// `Clone::clone` of the generator. The copy is a generator of its own;
/// nothing is claimed of it.
pub assume_specification[ <ChaCha20Rng as Clone>::clone ](rng: &ChaCha20Rng) -> (copy: ChaCha20Rng)
;

} // verus!
