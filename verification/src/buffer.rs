//! Vertex buffers: the slices of buffer data that are registered for
//! rendering, and the reading of what the graphics library reports when one
//! is registered.

use crate::error::{Error, Result};
use core::num::TryFromIntError;
use vstd::prelude::*;

verus! {

/// A slice of buffer data that was registered for rendering.
#[derive(Debug, Clone, Copy)]
pub struct Slice {
    index: libc::c_int,
    size: libc::c_int,
}

/// The geometric primitive to draw (i.e. what shapes the buffer data describes).
#[derive(Debug, Clone, Copy, PartialEq, Eq, Structural)]
pub enum Primitive {
    /// Draw triangles (3 vertices per triangle).
    Triangles,
    /// Draw a triangle strip (each vertex shared by 1-3 triangles).
    TriangleStrip,
    /// Draw a triangle fan (first vertex shared by all triangles).
    TriangleFan,
    /// Geometry primitive. Can be used for more complex use cases like geometry
    /// shaders that output custom primitives.
    GeometryPrim,
}

/// What registering `len` elements of buffer data comes to, when the
/// graphics library answers with `res`: a negative answer is an error of the
/// library, and a length that does not fit the slice's size is an invalid
/// size.
pub open spec fn registered(res: int, len: int) -> core::result::Result<(int, int), Error> {
    if res <= -3 {
        Err(Error::System(res as i32))
    } else if res == -2 {
        Err(Error::InvalidMemoryLocation)
    } else if res == -1 {
        Err(Error::TooManyBuffers)
    } else if len > i32::MAX {
        Err(Error::InvalidSize)
    } else {
        Ok((res, len))
    }
}

impl Slice {
    /// The index and the length of the slice.
    pub closed spec fn view(&self) -> (int, int) {
        (self.index as int, self.size as int)
    }

    /// Reads the answer `res` of the graphics library to the registration of
    /// `len` elements of buffer data. An answer that is not negative is the
    /// index of the new slice.
    pub fn from_raw(res: libc::c_int, len: usize) -> (r: Result<Self>)
        ensures
            match r {
                Ok(s) => registered(res as int, len as int) == Ok::<(int, int), Error>(s@),
                Err(e) => registered(res as int, len as int) == Err::<(int, int), Error>(e),
            },
    {
        if res <= -3 {
            Err(Error::System(res))
        } else if res == -2 {
            Err(Error::InvalidMemoryLocation)
        } else if res == -1 {
            Err(Error::TooManyBuffers)
        } else {
            match i32::try_from(len) {
                Ok(size) => Ok(Slice { index: res, size }),
                Err(e) => Err(<Error as From<TryFromIntError>>::from(e)),
            }
        }
    }

    /// Get the index into the buffer for this slice.
    pub fn index(&self) -> (i: libc::c_int)
        ensures
            i == self@.0,
    {
        self.index
    }

    /// Get the length of the slice.
    #[must_use]
    pub fn len(&self) -> (n: libc::c_int)
        ensures
            n == self@.1,
    {
        self.size
    }

    /// Return whether or not the slice has any elements.
    pub fn is_empty(&self) -> (b: bool)
        ensures
            b == (self@.1 <= 0),
    {
        self.len() <= 0
    }
}

} // verus!
