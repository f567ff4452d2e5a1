use citro3d::buffer::{Primitive, Slice};
use citro3d::Error;

#[test]
fn slice_from_a_good_answer() {
    let s = Slice::from_raw(3, 120).unwrap();
    assert_eq!(s.index(), 3);
    assert_eq!(s.len(), 120);
    assert!(!s.is_empty());
    let s = Slice::from_raw(0, 0).unwrap();
    assert_eq!(s.index(), 0);
    assert_eq!(s.len(), 0);
    assert!(s.is_empty());
    let s = Slice::from_raw(i32::MAX, i32::MAX as usize).unwrap();
    assert_eq!(s.index(), i32::MAX);
    assert_eq!(s.len(), i32::MAX);
}

#[test]
fn slice_from_an_error_answer() {
    assert_eq!(Slice::from_raw(-1, 10).unwrap_err(), Error::TooManyBuffers);
    assert_eq!(Slice::from_raw(-2, 10).unwrap_err(), Error::InvalidMemoryLocation);
    assert_eq!(Slice::from_raw(-3, 10).unwrap_err(), Error::System(-3));
    assert_eq!(Slice::from_raw(-77, 10).unwrap_err(), Error::System(-77));
    assert_eq!(Slice::from_raw(i32::MIN, 10).unwrap_err(), Error::System(i32::MIN));
}

#[test]
fn slice_length_must_fit() {
    let too_long = i32::MAX as usize + 1;
    assert_eq!(Slice::from_raw(0, too_long).unwrap_err(), Error::InvalidSize);
    assert_eq!(Slice::from_raw(5, usize::MAX).unwrap_err(), Error::InvalidSize);
    assert_eq!(Slice::from_raw(-1, too_long).unwrap_err(), Error::TooManyBuffers);
    assert_eq!(Slice::from_raw(-2, too_long).unwrap_err(), Error::InvalidMemoryLocation);
    assert_eq!(Slice::from_raw(-9, too_long).unwrap_err(), Error::System(-9));
}

#[test]
fn primitives_are_distinct() {
    let all = [
        Primitive::Triangles,
        Primitive::TriangleStrip,
        Primitive::TriangleFan,
        Primitive::GeometryPrim,
    ];
    for (i, a) in all.iter().enumerate() {
        for (j, b) in all.iter().enumerate() {
            assert_eq!(a == b, i == j);
        }
    }
}
