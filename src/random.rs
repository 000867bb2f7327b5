use vstd::prelude::*;

use crate::battle::Battle;
use crate::types::Entropy;

verus! {

/// The first two bytes of the entropy read as a big-endian 16-bit number.
pub open spec fn leading_u16(e: Entropy) -> int {
    e.0[0] as int * 256 + e.0[1] as int
}

/// A coin flip: the first byte modulo two.
pub open spec fn coinflip(e: Entropy) -> u8 {
    (e.0[0] % 2) as u8
}

/// A bounded draw: the leading 16-bit number modulo `max`, or `max / 2`
/// where that falls below `min`.
pub open spec fn bounded(e: Entropy, min: u16, max: u16) -> u16
    recommends
        max > 0,
{
    let r = leading_u16(e) % max as int;
    if r < min as int {
        (max / 2) as u16
    } else {
        r as u16
    }
}

impl Battle {
    /// Draws the index of a player (0 or 1) from the entropy.
    pub fn determine_turn(entropy: &Entropy) -> (r: u8)
        ensures
            r == coinflip(*entropy),
            r < 2,
    {
        entropy.0[0] % 2
    }

    /// Draws a number below `max_field` from the entropy: the leading 16-bit
    /// number modulo `max_field`, replaced by `max_field / 2` where it is
    /// below `min_field`.
    pub fn generate_random_number_field(entropy: &Entropy, min_field: u16, max_field: u16) -> (r:
        u16)
        requires
            max_field > 0,
        ensures
            r == bounded(*entropy, min_field, max_field),
            r < max_field,
    {
        let hi = entropy.0[0] as u16;
        let lo = entropy.0[1] as u16;
        let random_number: u16 = hi * 256 + lo;
        let random_number = random_number % max_field;
        if random_number < min_field {
            return max_field / 2;
        }
        random_number
    }
}

} // verus!
