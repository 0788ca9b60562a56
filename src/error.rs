use vstd::prelude::*;
use vstd::string::*;

use crate::text::{decimal, decimal_text};

verus! {

/// The ways in which building a dice configuration can fail.
#[derive(Debug, Clone, Copy, PartialEq, Eq, Structural)]
pub enum DiceError {
    /// A count that must be positive was zero.
    InvalidArgument,
    /// Glyph output was asked for dice with the given number of sides,
    /// which is more than a die face glyph can show.
    Unsupported(u32),
}

/// The message that tells a user what went wrong.
pub open spec fn message_text(e: DiceError) -> Seq<char> {
    match e {
        DiceError::InvalidArgument => "Input must be an integer greater than zero."@,
        DiceError::Unsupported(sides) => "Glyph output not supported when number_of_sides > 6, number_of_sides is "@
            + decimal_text(sides as nat) + "."@,
    }
}

impl DiceError {
    /// A one-line description of the error, naming the side count where
    /// glyphs were refused.
    pub fn message(&self) -> (r: String)
        ensures
            r@ == message_text(*self),
    {
        match self {
            DiceError::InvalidArgument => String::from_str("Input must be an integer greater than zero."),
            DiceError::Unsupported(sides) => {
                let mut out = String::from_str(
                    "Glyph output not supported when number_of_sides > 6, number_of_sides is ",
                );
                let digits = decimal(*sides);
                out.append(digits.as_str());
                out.append(".");
                out
            },
        }
    }
}

} // verus!
