use vstd::prelude::*;
use vstd::string::*;
use vstd::std_specs::cmp::PartialEqSpec;

use rand::Rng;

use crate::error::DiceError;
use crate::num::NonZeroPosInteger;
use crate::text::{decimal, decimal_text};

verus! {

/// rand's handle on the thread's random generator, carried through opaque.
#[verifier::external_type_specification]
#[verifier::external_body]
pub struct ExThreadRng(rand::rngs::ThreadRng);

/// Relies on rand::thread_rng: a handle on the generator that this thread
/// seeds and reseeds from the operating system.
pub assume_specification[ rand::thread_rng ]() -> rand::rngs::ThreadRng;

/// Relies on rand::Rng::gen_range over an inclusive range: a value drawn
/// uniformly from `low..=high`; it panics only when that range is empty.
#[verifier::external_body]
fn draw_between(rng: &mut rand::rngs::ThreadRng, low: u32, high: u32) -> (r: u32)
    requires
        low <= high,
    ensures
        low <= r <= high,
{
    rng.gen_range(low..=high)
}

/// The die face glyph for `roll`, or `?` where `roll` is no face of a
/// six-sided die.
pub open spec fn glyph_of(roll: u32) -> Seq<char> {
    if roll == 1 {
        seq!['⚀']
    } else if roll == 2 {
        seq!['⚁']
    } else if roll == 3 {
        seq!['⚂']
    } else if roll == 4 {
        seq!['⚃']
    } else if roll == 5 {
        seq!['⚄']
    } else if roll == 6 {
        seq!['⚅']
    } else {
        seq!['?']
    }
}

/// How one roll reads: as a glyph or in decimal.
pub open spec fn roll_text(glyphs: bool, roll: u32) -> Seq<char> {
    if glyphs {
        glyph_of(roll)
    } else {
        decimal_text(roll as nat)
    }
}

/// The rolls in order, each as `roll_text` has it, separated by single spaces.
pub open spec fn rendered(glyphs: bool, rolls: Seq<u32>) -> Seq<char>
    decreases rolls.len(),
{
    if rolls.len() == 0 {
        Seq::empty()
    } else if rolls.len() == 1 {
        roll_text(glyphs, rolls[0])
    } else {
        rendered(glyphs, rolls.drop_last()) + seq![' '] + roll_text(glyphs, rolls.last())
    }
}

/// Whether every roll in `rolls` is a face of a die with `sides` sides.
pub open spec fn all_faces(rolls: Seq<u32>, sides: nat) -> bool {
    forall|i: int| 0 <= i < rolls.len() ==> 1 <= #[trigger] rolls[i] <= sides
}

/// A dice configuration and its latest rolls, as plain values.
pub ghost struct RollSetView {
    pub number_of_dice: nat,
    pub number_of_sides: nat,
    pub output_glyphs: bool,
    pub results: Seq<u32>,
}

impl RollSetView {
    /// Glyphs only for dice of at most six sides; the rolls are either not
    /// made yet or one face per die.
    pub open spec fn valid(self) -> bool {
        &&& self.number_of_sides >= 1
        &&& self.output_glyphs ==> self.number_of_sides <= 6
        &&& self.results.len() == 0 || self.results.len() == self.number_of_dice
        &&& all_faces(self.results, self.number_of_sides)
    }

    /// Whether two views hold the same configuration, whatever was rolled.
    pub open spec fn same_config(self, other: RollSetView) -> bool {
        &&& self.number_of_dice == other.number_of_dice
        &&& self.number_of_sides == other.number_of_sides
        &&& self.output_glyphs == other.output_glyphs
    }
}

/// A number of dice with a number of sides each, how to show them, and
/// what they rolled last.
#[derive(Debug)]
pub struct RollSet {
    output_glyphs: bool,
    number_of_dice: u32,
    number_of_sides: NonZeroPosInteger,
    results: Vec<u32>,
}

impl View for RollSet {
    type V = RollSetView;

    closed spec fn view(&self) -> RollSetView {
        RollSetView {
            number_of_dice: self.number_of_dice as nat,
            number_of_sides: self.number_of_sides@,
            output_glyphs: self.output_glyphs,
            results: self.results@,
        }
    }
}

impl RollSet {
    pub open spec fn wf(&self) -> bool {
        self@.valid()
    }

    /// A set of `number_of_dice` dice with `number_of_sides` sides, not yet
    /// rolled. Glyph output is refused for dice of more than six sides.
    pub fn new(number_of_dice: u32, number_of_sides: NonZeroPosInteger, output_glyphs: bool) -> (r:
        Result<RollSet, DiceError>)
        ensures
            r is Err <==> output_glyphs && number_of_sides@ > 6,
            r matches Err(e) ==> e == DiceError::Unsupported(number_of_sides.value()),
            r matches Ok(s) ==> s.wf() && s@ == (RollSetView {
                number_of_dice: number_of_dice as nat,
                number_of_sides: number_of_sides@,
                output_glyphs,
                results: Seq::empty(),
            }),
    {
        let sides = number_of_sides.value();
        if output_glyphs && sides > 6 {
            return Err(DiceError::Unsupported(sides));
        }
        Ok(RollSet {
            output_glyphs,
            number_of_dice,
            number_of_sides,
            results: Vec::with_capacity(number_of_dice as usize),
        })
    }

    /// The glyph of the die face showing `roll`, or `?` for any other number.
    pub fn roll_to_glyph(roll: u32) -> (r: &'static str)
        ensures
            r@ == glyph_of(roll),
    {
        proof {
            reveal_strlit("⚀");
            reveal_strlit("⚁");
            reveal_strlit("⚂");
            reveal_strlit("⚃");
            reveal_strlit("⚄");
            reveal_strlit("⚅");
            reveal_strlit("?");
        }
        match roll {
            1 => "⚀",
            2 => "⚁",
            3 => "⚂",
            4 => "⚃",
            5 => "⚄",
            6 => "⚅",
            _ => "?",
        }
    }

    /// Takes `rolls` as the latest rolls when there is one per die and each
    /// is a face of the dice; otherwise leaves the set as it was.
    pub fn record_rolls(&mut self, rolls: Vec<u32>) -> (accepted: bool)
        requires
            old(self).wf(),
        ensures
            final(self).wf(),
            accepted == (rolls@.len() == old(self)@.number_of_dice && all_faces(
                rolls@,
                old(self)@.number_of_sides,
            )),
            accepted ==> final(self)@ == (RollSetView { results: rolls@, ..old(self)@ }),
            !accepted ==> final(self)@ == old(self)@,
    {
        let sides = self.number_of_sides.value();
        if rolls.len() != self.number_of_dice as usize {
            return false;
        }
        let mut i: usize = 0;
        while i < rolls.len()
            invariant
                i <= rolls@.len(),
                self@ == old(self)@,
                self.wf(),
                sides == self@.number_of_sides,
                forall|k: int| 0 <= k < i ==> 1 <= #[trigger] rolls@[k] <= sides,
            decreases rolls@.len() - i,
        {
            if rolls[i] < 1 || rolls[i] > sides {
                return false;
            }
            i = i + 1;
        }
        self.results = rolls;
        true
    }

    /// Rolls every die anew, each uniformly over its faces, and keeps these
    /// rolls in place of the earlier ones.
    pub fn roll_dice(&mut self)
        requires
            old(self).wf(),
        ensures
            final(self).wf(),
            final(self)@.same_config(old(self)@),
            final(self)@.results.len() == old(self)@.number_of_dice,
            all_faces(final(self)@.results, old(self)@.number_of_sides),
    {
        let sides = self.number_of_sides.value();
        let mut rng = rand::thread_rng();
        let mut rolls: Vec<u32> = Vec::with_capacity(self.number_of_dice as usize);
        let mut i: u32 = 0;
        while i < self.number_of_dice
            invariant
                i <= self.number_of_dice,
                rolls@.len() == i,
                sides == self@.number_of_sides,
                sides >= 1,
                all_faces(rolls@, sides as nat),
            decreases self.number_of_dice - i,
        {
            let roll = draw_between(&mut rng, 1, sides);
            rolls.push(roll);
            i = i + 1;
        }
        let accepted = self.record_rolls(rolls);
        assert(accepted);
    }

    /// The latest rolls, in the order the dice were rolled.
    pub fn results(&self) -> (r: &[u32])
        ensures
            r@ == self@.results,
    {
        self.results.as_slice()
    }

    /// The latest rolls as text, separated by single spaces: die face glyphs
    /// where glyph output was asked for, else decimal numbers.
    pub fn render(&self) -> (r: String)
        ensures
            r@ == rendered(self@.output_glyphs, self@.results),
    {
        let mut out = String::new();
        let mut i: usize = 0;
        while i < self.results.len()
            invariant
                i <= self.results@.len(),
                out@ == rendered(self.output_glyphs, self.results@.subrange(0, i as int)),
            decreases self.results@.len() - i,
        {
            let roll = self.results[i];
            let ghost done = self.results@.subrange(0, i as int);
            let ghost next = self.results@.subrange(0, i + 1);
            assert(next.drop_last() =~= done);
            if i > 0 {
                out.append(" ");
            }
            if self.output_glyphs {
                out.append(RollSet::roll_to_glyph(roll));
            } else {
                let digits = decimal(roll);
                out.append(digits.as_str());
            }
            proof {
                reveal_strlit(" ");
            }
            assert(out@ =~= rendered(self.output_glyphs, next));
            i = i + 1;
        }
        assert(self.results@.subrange(0, i as int) =~= self.results@);
        out
    }
}

impl PartialEq for RollSet {
    /// Two sets are equal when they hold the same configuration; what they
    /// rolled is not compared.
    fn eq(&self, other: &RollSet) -> (r: bool) {
        self.number_of_dice == other.number_of_dice && self.number_of_sides.value()
            == other.number_of_sides.value() && self.output_glyphs == other.output_glyphs
    }
}

impl vstd::std_specs::cmp::PartialEqSpecImpl for RollSet {
    open spec fn obeys_eq_spec() -> bool {
        true
    }

    open spec fn eq_spec(&self, other: &RollSet) -> bool {
        self@.same_config(other@)
    }
}

/// A set of no dice renders as empty text, whether or not it shows glyphs,
/// and whether or not it was rolled.
pub proof fn lemma_no_dice_render_empty(s: RollSet)
    requires
        s.wf(),
        s@.number_of_dice == 0,
    ensures
        rendered(s@.output_glyphs, s@.results) == Seq::<char>::empty(),
{
}

/// Equality of sets looks at their configuration alone: sets built alike
/// stay equal whatever either of them rolled.
pub proof fn lemma_equality_ignores_results(a: RollSet, b: RollSet)
    requires
        a@.same_config(b@),
    ensures
        a.eq_spec(&b),
        b.eq_spec(&a),
{
}

} // verus!
