//! Shaders: the reading of a shader binary as words, and of what the
//! graphics library reports when a uniform is looked up.

use crate::error::{Error, Result};
use vstd::prelude::*;

verus! {

/// The type of a shader.
#[derive(Clone, Copy, Debug, PartialEq, Eq, Structural)]
pub enum Type {
    /// A vertex shader.
    Vertex,
    /// A geometry shader.
    Geometry,
}

/// Why a slice of one type cannot be read as a slice of another: the cases
/// of `bytemuck::PodCastError`.
#[derive(Clone, Copy, Debug, PartialEq, Eq, Structural)]
pub enum CastError {
    /// The target type has a greater alignment and the input is not aligned.
    Unaligned,
    /// The output would not be a whole number of elements.
    Slop,
    /// The sizes of source and destination do not match.
    SizeMismatch,
    /// The alignments of source and destination do not match.
    AlignmentMismatch,
}

/// Why a shader binary cannot be handed to the parser.
#[derive(Clone, Copy, Debug, PartialEq, Eq, Structural)]
pub enum BinaryError {
    /// The bytes do not start at an address that a word can have.
    Unaligned,
    /// The bytes are not a whole number of words.
    Slop,
    /// There are more words than the parser can count.
    TooLong,
}

/// The word that four bytes make, lowest byte first.
pub open spec fn word_le(b: Seq<u8>) -> u32 {
    vstd::bytes::spec_u32_from_le_bytes(b)
}

/// Whether `words` are the `bytes` read four by four, all of them lowest
/// byte first or all of them highest byte first.
pub open spec fn words_of(bytes: Seq<u8>, words: Seq<u32>) -> bool {
    &&& bytes.len() == 4 * words.len()
    &&& {
        ||| forall|i: int|
            0 <= i < words.len() ==> #[trigger] words[i] == word_le(bytes.subrange(4 * i, 4 * i + 4))
        ||| forall|i: int|
            0 <= i < words.len() ==> #[trigger] words[i] == word_le(
                bytes.subrange(4 * i, 4 * i + 4).reverse(),
            )
    }
}

/// `bytemuck::try_cast_slice`, from bytes to 32-bit words: the same memory
/// read as words, in the byte order of the machine. It fails where the bytes
/// do not start at an address that is a multiple of four, which no length
/// tells, and otherwise where their number is no multiple of four. The two
/// mismatch errors belong to other casts.
#[verifier::external_body]
fn cast_words(bytes: &[u8]) -> (r: core::result::Result<&[u32], CastError>)
    ensures
        match r {
            Ok(words) => words_of(bytes@, words@),
            Err(e) => e == CastError::Unaligned || (e == CastError::Slop && bytes@.len() % 4 != 0),
        },
{
    match bytemuck::try_cast_slice(bytes) {
        Ok(words) => Ok(words),
        Err(bytemuck::PodCastError::TargetAlignmentGreaterAndInputNotAligned) => Err(
            CastError::Unaligned,
        ),
        Err(bytemuck::PodCastError::OutputSliceWouldHaveSlop) => Err(CastError::Slop),
        Err(bytemuck::PodCastError::SizeMismatch) => Err(CastError::SizeMismatch),
        Err(bytemuck::PodCastError::AlignmentMismatch) => Err(CastError::AlignmentMismatch),
    }
}

/// Reads a shader binary as the words that the parser takes, and counts
/// them. Bytes that are no whole number of words are always refused; bytes
/// that are may still be refused for the address they start at.
pub fn binary_words(bytes: &[u8]) -> (r: core::result::Result<(&[u32], u32), BinaryError>)
    ensures
        match r {
            Ok((words, count)) => words_of(bytes@, words@) && count == words@.len(),
            Err(BinaryError::Unaligned) => true,
            Err(BinaryError::Slop) => bytes@.len() % 4 != 0,
            Err(BinaryError::TooLong) => bytes@.len() % 4 == 0 && bytes@.len() / 4 > u32::MAX,
        },
        bytes@.len() % 4 != 0 ==> r is Err,
{
    match cast_words(bytes) {
        Ok(words) => match u32::try_from(words.len()) {
            Ok(count) => Ok((words, count)),
            Err(_) => Err(BinaryError::TooLong),
        },
        Err(CastError::Slop) => Err(BinaryError::Slop),
        Err(_) => Err(BinaryError::Unaligned),
    }
}

/// Reads the location that the graphics library reports for a uniform: a
/// negative report means that there is no uniform of the name.
pub fn uniform_location(reported: i8) -> (r: Result<u8>)
    ensures
        match r {
            Ok(location) => reported >= 0 && location == reported,
            Err(e) => reported < 0 && e == Error::NotFound,
        },
{
    if reported < 0 {
        Err(Error::NotFound)
    } else {
        Ok(reported as u8)
    }
}

} // verus!
