//! Dice rolls from rltk's random number generator.
use vstd::prelude::*;

verus! {

#[verifier::external_type_specification]
#[verifier::external_body]
pub struct ExRandomNumberGenerator(rltk::RandomNumberGenerator);

/// Relies on rltk's `RandomNumberGenerator::new`: a generator seeded from the
/// system's entropy source; nothing is known of the numbers it will give.
pub assume_specification[ rltk::RandomNumberGenerator::new ]() -> rltk::RandomNumberGenerator;

/// Relies on rltk's `RandomNumberGenerator::roll_dice`: one die of
/// `die_type` sides is `range(1, die_type + 1)`, a value in `1 ..= die_type`.
/// The range would be empty, and the call panic, for fewer than one side, and
/// `die_type + 1` would overflow at the largest `i32`.
pub assume_specification[ rltk::RandomNumberGenerator::roll_dice ](
    rng: &mut rltk::RandomNumberGenerator,
    n: i32,
    die_type: i32,
) -> (r: i32)
    requires
        n == 1,
        1 <= die_type < i32::MAX,
    ensures
        1 <= r <= die_type,
;

} // verus!
