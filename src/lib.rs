//! Rolls any number of dice with any number of sides, and renders the
//! results as numbers or as die-face glyphs.

pub mod error;
pub mod num;
pub mod params;
pub mod rollset;
pub mod text;

use vstd::prelude::*;

use crate::error::DiceError;
use crate::params::Parameters;
use crate::rollset::{all_faces, rendered, RollSet};

verus! {

/// Rolls the dice that `params` asks for once, and gives the line that
/// shows the rolls.
pub fn run(params: Parameters) -> (r: Result<String, DiceError>)
    ensures
        r is Err <==> params.glyphs && params.number_of_sides@ > 6,
        r matches Err(e) ==> e == DiceError::Unsupported(params.number_of_sides.value()),
        r matches Ok(line) ==> exists|rolls: Seq<u32>|
            rolls.len() == params.number_of_dice && all_faces(rolls, params.number_of_sides@)
                && line@ == rendered(params.glyphs, rolls),
{
    let mut rolls = RollSet::new(params.number_of_dice(), params.number_of_sides(), params.glyphs())?;
    rolls.roll_dice();
    let line = rolls.render();
    assert(rolls@.results.len() == params.number_of_dice);
    Ok(line)
}

} // verus!
