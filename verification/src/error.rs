//! The error type that the fallible operations of this crate return.

use core::num::TryFromIntError;
use vstd::prelude::*;

verus! {

/// What can go wrong in an operation of this crate.
#[non_exhaustive]
#[derive(Clone, Copy, Debug, PartialEq, Eq, Structural)]
pub enum Error {
    /// The graphics library reported an error code of its own.
    System(i32),
    /// An object or context could not be initialized.
    FailedToInitialize,
    /// A size parameter was specified that cannot be converted to the proper type.
    InvalidSize,
    /// Failed to select the given render target for drawing to.
    InvalidRenderTarget,
    /// A reference could not be obtained because a lock is already held on
    /// the requested object.
    LockHeld,
    /// Too many vertex attributes were registered (max 12 supported).
    TooManyAttributes,
    /// Too many vertex buffer objects were registered (max 12 supported).
    TooManyBuffers,
    /// The given memory could not be converted to a physical address for
    /// sharing with the GPU.
    InvalidMemoryLocation,
    /// The given name was not valid for the requested purpose.
    InvalidName,
    /// The requested resource could not be found.
    NotFound,
}

/// The result type that the fallible operations of this crate return.
pub type Result<T> = core::result::Result<T, Error>;

impl From<TryFromIntError> for Error {
    /// A number that does not fit its target type is an invalid size.
    fn from(e: TryFromIntError) -> (r: Self) {
        Error::InvalidSize
    }
}

impl vstd::std_specs::convert::FromSpecImpl<TryFromIntError> for Error {
    open spec fn obeys_from_spec() -> bool {
        true
    }

    open spec fn from_spec(e: TryFromIntError) -> Self {
        Error::InvalidSize
    }
}

} // verus!
