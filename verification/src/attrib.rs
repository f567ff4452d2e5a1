//! Vertex attributes: the shader registers that they feed and the rules for
//! registering them.

use crate::error::{Error, Result};
use vstd::prelude::*;

verus! {

/// Number of shader input registers.
pub const REGISTER_COUNT: u16 = 16;

/// Most elements that one attribute can have (`xyzw`, `rgba` or `stpq`).
pub const MAX_ELEMENTS: u8 = 4;

/// A shader input register, usually corresponding to a single vertex
/// attribute (e.g. position or color). These are called `v0`, `v1`, ...
/// `v15` in the shader language.
#[derive(Debug, Clone, Copy)]
pub struct Register(libc::c_int);

impl Register {
    #[verifier::type_invariant]
    spec fn in_range(self) -> bool {
        0 <= self.0 < REGISTER_COUNT
    }

    /// The number of the register.
    pub closed spec fn number(self) -> int {
        self.0 as int
    }

    /// Get a register corresponding to the given index.
    ///
    /// # Errors
    ///
    /// Returns an error for `n >= 16`.
    pub fn new(n: u16) -> (r: Result<Self>)
        ensures
            match r {
                Ok(reg) => n < REGISTER_COUNT && reg.number() == n,
                Err(e) => n >= REGISTER_COUNT && e == Error::TooManyAttributes,
            },
    {
        if n < 16 {
            Ok(Self(n as i32))
        } else {
            Err(Error::TooManyAttributes)
        }
    }

    /// The number of the register, as the graphics library takes it.
    pub fn as_raw(self) -> (n: libc::c_int)
        ensures
            n == self.number(),
            0 <= n < REGISTER_COUNT,
    {
        proof {
            use_type_invariant(&self);
        }
        self.0
    }
}

/// An attribute index. This is the attribute's actual index in the input
/// buffer, and may correspond to any [`Register`] (or multiple) as input in
/// the shader program.
#[derive(Debug, Clone, Copy)]
pub struct Index(u8);

impl Index {
    /// The position of the attribute in the order of registration.
    pub closed spec fn position(self) -> int {
        self.0 as int
    }

    /// The index that the graphics library reports for a newly registered
    /// attribute. A report that is no index (it is negative when the maximum
    /// number of attributes is registered already) is an error.
    pub fn from_raw(reported: libc::c_int) -> (r: Result<Self>)
        ensures
            match r {
                Ok(idx) => 0 <= reported <= u8::MAX && idx.position() == reported,
                Err(e) => !(0 <= reported <= u8::MAX) && e == Error::TooManyAttributes,
            },
    {
        match u8::try_from(reported) {
            Ok(idx) => Ok(Index(idx)),
            Err(_) => Err(Error::TooManyAttributes),
        }
    }

    /// The position of the attribute in the order of registration.
    pub fn as_u8(self) -> (n: u8)
        ensures
            n == self.position(),
    {
        self.0
    }
}

/// The data format of an attribute.
#[derive(Debug, Clone, Copy, PartialEq, Eq, Structural)]
pub enum Format {
    /// A signed byte, i.e. [`i8`].
    Byte,
    /// An unsigned byte, i.e. [`u8`].
    UnsignedByte,
    /// A float.
    Float,
    /// A short integer, i.e. [`i16`].
    Short,
}

/// The number of elements of an attribute that is about to be registered:
/// more than [`MAX_ELEMENTS`] is an invalid size.
pub fn valid_count(count: u8) -> (r: Result<u8>)
    ensures
        r == if count > MAX_ELEMENTS {
            Err::<u8, Error>(Error::InvalidSize)
        } else {
            Ok(count)
        },
{
    if count > 4 {
        return Err(Error::InvalidSize);
    }
    Ok(count)
}

} // verus!
