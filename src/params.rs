use vstd::prelude::*;

use crate::error::DiceError;
use crate::num::NonZeroPosInteger;
use crate::text::{parse_u32, parsed_u32};

verus! {

/// The number of dice rolled when none is given.
pub const DEFAULT_NUMBER_OF_DICE: u32 = 1;

/// The number of sides of each die when none is given.
pub const DEFAULT_NUMBER_OF_SIDES: u32 = 6;

/// The count that `text` gives: `default` where it is absent, nothing where
/// it does not read as an unsigned 32-bit integer.
pub open spec fn count_or(text: Option<&str>, default: u32) -> Option<u32> {
    match text {
        Some(t) => parsed_u32(t@),
        None => Some(default),
    }
}

pub open spec fn positive_count(n: Option<u32>) -> bool {
    n matches Some(k) && k > 0
}

/// What a user asked for: how many dice, how many sides each, and whether
/// to show the rolls as glyphs.
#[derive(Debug, Clone, Copy, PartialEq, Eq, Structural)]
pub struct Parameters {
    pub number_of_dice: u32,
    pub number_of_sides: NonZeroPosInteger,
    pub glyphs: bool,
}

fn count_from(text: Option<&str>, default: u32) -> (r: Option<u32>)
    ensures
        r == count_or(text, default),
{
    match text {
        Some(t) => parse_u32(t),
        None => Some(default),
    }
}

impl Parameters {
    /// Reads the parameters from the text given for the number of dice and
    /// for the number of sides, each of which may be absent and then takes
    /// its default, and the glyph flag. Text that is no unsigned integer, or
    /// a side count of zero, is an invalid argument.
    pub fn new(number_of_dice: Option<&str>, number_of_sides: Option<&str>, glyphs: bool) -> (r:
        Result<Parameters, DiceError>)
        ensures
            r is Ok <==> count_or(number_of_dice, DEFAULT_NUMBER_OF_DICE) is Some && positive_count(
                count_or(number_of_sides, DEFAULT_NUMBER_OF_SIDES),
            ),
            r matches Ok(p) ==> Some(p.number_of_dice) == count_or(
                number_of_dice,
                DEFAULT_NUMBER_OF_DICE,
            ) && Some(p.number_of_sides.value()) == count_or(number_of_sides, DEFAULT_NUMBER_OF_SIDES)
                && p.glyphs == glyphs,
            r matches Err(e) ==> e == DiceError::InvalidArgument,
    {
        let dice = match count_from(number_of_dice, DEFAULT_NUMBER_OF_DICE) {
            Some(n) => n,
            None => return Err(DiceError::InvalidArgument),
        };
        let sides = match count_from(number_of_sides, DEFAULT_NUMBER_OF_SIDES) {
            Some(n) => NonZeroPosInteger::new(n)?,
            None => return Err(DiceError::InvalidArgument),
        };
        Ok(Parameters { number_of_dice: dice, number_of_sides: sides, glyphs })
    }

    /// The number of dice to roll.
    pub fn number_of_dice(&self) -> (r: u32)
        ensures
            r == self.number_of_dice,
    {
        self.number_of_dice
    }

    /// The number of sides of each die.
    pub fn number_of_sides(&self) -> (r: NonZeroPosInteger)
        ensures
            r == self.number_of_sides,
    {
        self.number_of_sides
    }

    /// Whether the rolls are to be shown as glyphs.
    pub fn glyphs(&self) -> (r: bool)
        ensures
            r == self.glyphs,
    {
        self.glyphs
    }
}

} // verus!
