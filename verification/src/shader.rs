//! Shader modules: SPIR-V bytes in, the words that the device compiles out.
//!
//! A SPIR-V module is a run of 32-bit words that starts with a magic number.
//! The bytes may hold the words in either byte order; the magic number tells
//! which.

use crate::bytes::bytes_to_words;
use crate::bytes::word_at;
use vstd::prelude::*;

verus! {

/// The first word of every SPIR-V module.
pub const MAGIC_NUMBER: u32 = 0x0723_0203;

/// The word that the four bytes from offset `4 * i` spell when the most
/// significant byte comes first.
pub open spec fn word_at_reversed(bytes: Seq<u8>, i: int) -> u32 {
    (0x100_0000 * bytes[4 * i] as int + 0x1_0000 * bytes[4 * i + 1] as int + 0x100 * bytes[4 * i
        + 2] as int + bytes[4 * i + 3] as int) as u32
}

/// The words of the SPIR-V module that `bytes` holds, or `None` where `bytes`
/// holds no module: where its length is no multiple of four, or where its
/// first word is the magic number in neither byte order.
pub open spec fn spirv_words(bytes: Seq<u8>) -> Option<Seq<u32>> {
    if bytes.len() % 4 != 0 || bytes.len() == 0 {
        None
    } else if word_at(bytes, 0) == MAGIC_NUMBER {
        Some(bytes_to_words(bytes))
    } else if word_at_reversed(bytes, 0) == MAGIC_NUMBER {
        Some(Seq::new((bytes.len() / 4) as nat, |i: int| word_at_reversed(bytes, i)))
    } else {
        None
    }
}

/// Why bytes are not a SPIR-V module.
#[derive(Clone, Copy, Debug, PartialEq, Eq, Structural)]
pub enum ShaderError {
    /// The number of bytes is no multiple of four.
    Length,
    /// The bytes do not start with the magic number.
    MagicNumber,
}

/// The error that `bytes` is refused with, or `None` where `bytes` holds a
/// module.
pub open spec fn shader_error(bytes: Seq<u8>) -> Option<ShaderError> {
    if bytes.len() % 4 != 0 {
        Some(ShaderError::Length)
    } else if spirv_words(bytes) is None {
        Some(ShaderError::MagicNumber)
    } else {
        None
    }
}

#[verifier::external_type_specification]
#[verifier::external_body]
pub struct ExIoError(std::io::Error);

/// `wgpu::read_spirv` on bytes in memory. It refuses a length that is no
/// multiple of four, reads the bytes as words, reverses the bytes of every
/// word where the first word is the byte-reversed magic number, and refuses
/// what then does not start with the magic number. Reading bytes in memory
/// does not fail otherwise.
#[verifier::external_body]
fn read_spirv(bytes: &[u8]) -> (result: Result<Vec<u32>, std::io::Error>)
    ensures
        match result {
            Ok(words) => spirv_words(bytes@) == Some(words@),
            Err(_) => spirv_words(bytes@) is None,
        },
{
    wgpu::read_spirv(std::io::Cursor::new(bytes))
}

/// Reads `bytes` as a SPIR-V module.
pub fn parse(bytes: &[u8]) -> (result: Result<Vec<u32>, ShaderError>)
    ensures
        match result {
            Ok(words) => spirv_words(bytes@) == Some(words@),
            Err(error) => shader_error(bytes@) == Some(error),
        },
{
    match read_spirv(bytes) {
        Ok(words) => Ok(words),
        Err(_) => {
            if bytes.len() % 4 != 0 {
                Err(ShaderError::Length)
            } else {
                Err(ShaderError::MagicNumber)
            }
        },
    }
}

} // verus!
