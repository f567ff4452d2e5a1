//! Texture combiners: their stages and the operands that they take.

use vstd::prelude::*;

verus! {

/// Number of texture combiner stages.
pub const TEXENV_COUNT: usize = 6;

/// A source operand of a texture combination.
#[allow(missing_docs)]
#[derive(Debug, Clone, Copy, PartialEq, Eq, Structural)]
#[non_exhaustive]
pub enum Source {
    PrimaryColor,
    FragmentPrimaryColor,
    FragmentSecondaryColor,
    Texture0,
    Texture1,
    Texture2,
    Texture3,
    PreviousBuffer,
    Constant,
    Previous,
}

impl Source {
    /// The operand to configure where `given` may be left out: the given
    /// one, or the primary colour in its place.
    pub fn or_primary(given: Option<Source>) -> (s: Source)
        ensures
            s == match given {
                Some(g) => g,
                None => Source::PrimaryColor,
            },
    {
        match given {
            Some(g) => g,
            None => Source::PrimaryColor,
        }
    }
}

/// The combination function to apply to the operands of a texture combiner.
#[allow(missing_docs)]
#[derive(Debug, Clone, Copy, PartialEq, Eq, Structural)]
#[non_exhaustive]
pub enum CombineFunc {
    Replace,
    Modulate,
    Add,
    AddSigned,
    Interpolate,
    Subtract,
    Dot3Rgb,
}

/// A texture combination stage identifier. This index doubles as the order
/// in which texture combinations will be applied.
#[derive(Copy, Clone, Debug)]
pub struct Stage(pub(crate) usize);

impl Stage {
    #[verifier::type_invariant]
    spec fn in_range(self) -> bool {
        self.0 < TEXENV_COUNT
    }

    /// The number of the stage.
    pub closed spec fn number(self) -> int {
        self.0 as int
    }

    /// Get a stage index. Valid indices range from 0 to 5.
    pub fn new(index: usize) -> (r: Option<Self>)
        ensures
            match r {
                Some(s) => index < TEXENV_COUNT && s.number() == index,
                None => index >= TEXENV_COUNT,
            },
    {
        if index < 6 {
            Some(Self(index))
        } else {
            None
        }
    }

    /// The number of the stage, which is below [`TEXENV_COUNT`].
    pub fn index(self) -> (i: usize)
        ensures
            i == self.number(),
            i < TEXENV_COUNT,
    {
        proof {
            use_type_invariant(&self);
        }
        self.0
    }
}

} // verus!
