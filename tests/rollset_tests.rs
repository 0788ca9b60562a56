use dice::error::DiceError;
use dice::num::NonZeroPosInteger;
use dice::rollset::RollSet;

fn sides(n: u32) -> NonZeroPosInteger {
    NonZeroPosInteger::new(n).unwrap()
}

#[test]
fn rs_new_with_valid_input() {
    let expected = RollSet::new(5, sides(3), false).unwrap();
    assert_eq!(expected.results(), &[] as &[u32]);
    assert_eq!(expected, RollSet::new(5, NonZeroPosInteger::new(3).unwrap(), false).unwrap());
}

#[test]
fn rs_new_with_invalid_input() {
    assert_eq!(
        RollSet::new(12, NonZeroPosInteger::new(8).unwrap(), true),
        Err(DiceError::Unsupported(8))
    );
}

#[test]
fn rs_roll_seven_dice() {
    let mut dice = RollSet::new(7, NonZeroPosInteger::new(6).unwrap(), false).unwrap();
    dice.roll_dice();
    assert_eq!(dice.results().len(), 7);
}

#[test]
fn rollset_new_with_valid_input() {
    let expected = RollSet::new(5, sides(3), false).unwrap();
    assert_eq!(expected.results(), &[] as &[u32]);
    assert_eq!(expected, RollSet::new(5, NonZeroPosInteger::new(3).unwrap(), false).unwrap());
}

#[test]
fn rollset_new_with_invalid_input() {
    assert_eq!(
        RollSet::new(12, NonZeroPosInteger::new(8).unwrap(), true),
        Err(DiceError::Unsupported(8))
    );
}

#[test]
fn roll_seven_dice() {
    let mut dice = RollSet::new(7, NonZeroPosInteger::new(6).unwrap(), false).unwrap();
    dice.roll_dice();
    assert_eq!(dice.results().len(), 7);
}

#[test]
fn rs_roll_to_glyph_one() {
    assert_eq!("⚀", RollSet::roll_to_glyph(1));
}

#[test]
fn rs_roll_to_glyph_two() {
    assert_eq!("⚁", RollSet::roll_to_glyph(2));
}

#[test]
fn rs_roll_to_glyph_three() {
    assert_eq!("⚂", RollSet::roll_to_glyph(3));
}

#[test]
fn rs_roll_to_glyph_four() {
    assert_eq!("⚃", RollSet::roll_to_glyph(4));
}

#[test]
fn rs_roll_to_glyph_five() {
    assert_eq!("⚄", RollSet::roll_to_glyph(5));
}

#[test]
fn rs_roll_to_glyph_six() {
    assert_eq!("⚅", RollSet::roll_to_glyph(6));
}

#[test]
fn rs_roll_to_glyph_other() {
    assert_eq!("?", RollSet::roll_to_glyph(99));
}

#[test]
fn roll_to_glyph_one() {
    assert_eq!("⚀", RollSet::roll_to_glyph(1));
}

#[test]
fn roll_to_glyph_two() {
    assert_eq!("⚁", RollSet::roll_to_glyph(2));
}

#[test]
fn roll_to_glyph_three() {
    assert_eq!("⚂", RollSet::roll_to_glyph(3));
}

#[test]
fn roll_to_glyph_four() {
    assert_eq!("⚃", RollSet::roll_to_glyph(4));
}

#[test]
fn roll_to_glyph_five() {
    assert_eq!("⚄", RollSet::roll_to_glyph(5));
}

#[test]
fn roll_to_glyph_six() {
    assert_eq!("⚅", RollSet::roll_to_glyph(6));
}

#[test]
fn roll_to_glyph_other() {
    assert_eq!("?", RollSet::roll_to_glyph(99));
}

#[test]
fn glyph_for_zero_is_placeholder() {
    assert_eq!("?", RollSet::roll_to_glyph(0));
    assert_eq!("?", RollSet::roll_to_glyph(7));
}

#[test]
fn glyphs_refused_for_any_side_count_above_six() {
    for n in [7u32, 8, 20, 100, u32::MAX] {
        for count in [0u32, 1, 5] {
            assert_eq!(RollSet::new(count, sides(n), true), Err(DiceError::Unsupported(n)));
        }
    }
}

#[test]
fn glyphs_accepted_up_to_six_sides() {
    for n in 1u32..=6 {
        for count in [0u32, 1, 5] {
            assert!(RollSet::new(count, sides(n), true).is_ok());
        }
    }
}

#[test]
fn many_sides_without_glyphs_accepted() {
    assert!(RollSet::new(3, sides(100), false).is_ok());
}

#[test]
fn rolls_are_faces_of_the_dice() {
    for n in [1u32, 2, 6, 20] {
        let mut set = RollSet::new(50, sides(n), false).unwrap();
        set.roll_dice();
        assert_eq!(set.results().len(), 50);
        assert!(set.results().iter().all(|&r| 1 <= r && r <= n));
    }
}

#[test]
fn one_sided_dice_always_show_one() {
    let mut set = RollSet::new(4, sides(1), false).unwrap();
    set.roll_dice();
    assert_eq!(set.render(), "1 1 1 1");
}

#[test]
fn rolling_again_replaces_results() {
    let mut set = RollSet::new(3, sides(6), false).unwrap();
    set.roll_dice();
    set.roll_dice();
    assert_eq!(set.results().len(), 3);
}

#[test]
fn repeated_rolls_are_drawn_afresh() {
    let mut set = RollSet::new(1, sides(6), false).unwrap();
    let mut counts = [0u32; 7];
    for _ in 0..6000 {
        set.roll_dice();
        counts[set.results()[0] as usize] += 1;
    }
    assert_eq!(counts[0], 0);
    for face in 1..=6 {
        assert!(counts[face] > 700 && counts[face] < 1300, "{:?}", counts);
    }
    let mut changes = 0;
    let mut previous = set.results().to_vec();
    for _ in 0..100 {
        set.roll_dice();
        if set.results() != previous.as_slice() {
            changes += 1;
        }
        previous = set.results().to_vec();
    }
    assert!(changes > 50);
}

#[test]
fn no_dice_render_empty() {
    for glyphs in [false, true] {
        let mut set = RollSet::new(0, sides(6), glyphs).unwrap();
        assert_eq!(set.render(), "");
        set.roll_dice();
        assert_eq!(set.results().len(), 0);
        assert_eq!(set.render(), "");
    }
}

#[test]
fn three_dice_render_as_digits() {
    let mut set = RollSet::new(3, sides(6), false).unwrap();
    set.roll_dice();
    let text = set.render();
    let parts: Vec<&str> = text.split(' ').collect();
    assert_eq!(parts.len(), 3);
    for p in parts {
        assert_eq!(p.len(), 1);
        let d: u32 = p.parse().unwrap();
        assert!((1..=6).contains(&d));
    }
}

#[test]
fn recorded_rolls_render_as_glyphs() {
    let mut set = RollSet::new(2, sides(6), true).unwrap();
    assert!(set.record_rolls(vec![3, 6]));
    assert_eq!(set.results(), &[3, 6]);
    assert_eq!(set.render(), "⚂ ⚅");
}

#[test]
fn recorded_rolls_render_as_numbers() {
    let mut set = RollSet::new(3, sides(20), false).unwrap();
    assert!(set.record_rolls(vec![10, 20, 7]));
    assert_eq!(set.render(), "10 20 7");
}

#[test]
fn unfitting_rolls_are_not_recorded() {
    let mut set = RollSet::new(2, sides(6), false).unwrap();
    assert!(!set.record_rolls(vec![3]));
    assert!(!set.record_rolls(vec![3, 7]));
    assert!(!set.record_rolls(vec![0, 2]));
    assert!(!set.record_rolls(vec![1, 2, 3]));
    assert_eq!(set.results(), &[] as &[u32]);
    assert!(set.record_rolls(vec![1, 2]));
    assert!(!set.record_rolls(vec![9, 9]));
    assert_eq!(set.results(), &[1, 2]);
}

#[test]
fn eight_sided_glyphs_are_unsupported() {
    let err = RollSet::new(5, sides(8), true).unwrap_err();
    assert_eq!(err, DiceError::Unsupported(8));
    assert!(err.message().contains("8"));
}

#[test]
fn zero_sides_is_invalid_argument() {
    assert_eq!(NonZeroPosInteger::new(0), Err(DiceError::InvalidArgument));
}

#[test]
fn equality_ignores_results() {
    let a = RollSet::new(5, sides(3), false).unwrap();
    let mut b = RollSet::new(5, sides(3), false).unwrap();
    assert!(a == b);
    b.roll_dice();
    assert!(a == b);
    assert!(b == a);
}

#[test]
fn equality_compares_configuration() {
    let a = RollSet::new(5, sides(3), false).unwrap();
    assert!(a != RollSet::new(4, sides(3), false).unwrap());
    assert!(a != RollSet::new(5, sides(4), false).unwrap());
    assert!(a != RollSet::new(5, sides(3), true).unwrap());
}
