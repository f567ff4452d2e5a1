use citro3d::texenv::{Source, Stage, TEXENV_COUNT};

#[test]
fn stage_indices_range_from_zero_to_five() {
    assert_eq!(TEXENV_COUNT, 6);
    for i in 0..6 {
        assert_eq!(Stage::new(i).unwrap().index(), i);
    }
    for i in [6usize, 7, 100, usize::MAX] {
        assert!(Stage::new(i).is_none());
    }
}

#[test]
fn missing_operand_is_the_primary_colour() {
    assert_eq!(Source::or_primary(None), Source::PrimaryColor);
    assert_eq!(Source::or_primary(Some(Source::Texture2)), Source::Texture2);
    assert_eq!(Source::or_primary(Some(Source::Previous)), Source::Previous);
    assert_eq!(Source::or_primary(Some(Source::PrimaryColor)), Source::PrimaryColor);
}
