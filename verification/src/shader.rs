//! Decoding of the SPIR-V code of the engine's shader modules.

use vstd::prelude::*;

verus! {

#[verifier::external_type_specification]
#[verifier::external_body]
pub struct ExIoError(std::io::Error);

/// The number that starts every SPIR-V module.
pub open spec fn spirv_magic() -> u32 {
    0x0723_0203
}

/// The `i`-th 32-bit word of `bytes`, read least significant byte first.
pub open spec fn word_le(bytes: Seq<u8>, i: int) -> u32 {
    (bytes[4 * i] + 0x100 * bytes[4 * i + 1] + 0x1_0000 * bytes[4 * i + 2] + 0x100_0000 * bytes[4
        * i + 3]) as u32
}

/// The `i`-th 32-bit word of `bytes`, read most significant byte first.
pub open spec fn word_be(bytes: Seq<u8>, i: int) -> u32 {
    (bytes[4 * i + 3] + 0x100 * bytes[4 * i + 2] + 0x1_0000 * bytes[4 * i + 1] + 0x100_0000
        * bytes[4 * i]) as u32
}

/// The words of a SPIR-V module given as bytes, in whichever byte order its
/// magic number shows; none when the length is not a multiple of four or
/// the module does not start with the magic number in either order.
pub open spec fn spirv_words(bytes: Seq<u8>) -> Option<Seq<u32>> {
    let n = bytes.len() / 4;
    if bytes.len() % 4 != 0 || n == 0 {
        None
    } else if word_le(bytes, 0) == spirv_magic() {
        Some(Seq::new(n, |i: int| word_le(bytes, i)))
    } else if word_be(bytes, 0) == spirv_magic() {
        Some(Seq::new(n, |i: int| word_be(bytes, i)))
    } else {
        None
    }
}

/// Decoded SPIR-V code is never empty and starts with the magic number.
pub proof fn lemma_spirv_starts_with_magic(bytes: Seq<u8>)
    ensures
        spirv_words(bytes) matches Some(words) ==> words.len() > 0 && words[0] == spirv_magic()
            && words.len() * 4 == bytes.len(),
{
}

/// `ash::util::read_spv` on the bytes in memory: their 32-bit words, in the
/// byte order that makes the first word the SPIR-V magic number, or an
/// error when the length is not a multiple of four or no order does.
#[verifier::external_body]
fn read_spv(code: &[u8]) -> (words: Result<Vec<u32>, std::io::Error>)
    ensures
        words is Ok <==> spirv_words(code@) is Some,
        words matches Ok(w) ==> spirv_words(code@) == Some(w@),
{
    ash::util::read_spv(&mut std::io::Cursor::new(code))
}

/// Why shader code could not be decoded.
#[derive(Debug, Clone, Copy, PartialEq, Eq, Structural)]
pub enum ShaderCodeError {
    /// The bytes are not a SPIR-V module.
    InvalidSpirv,
}

/// Decodes the SPIR-V code of a shader module into its words.
pub fn shader_code(code: &[u8]) -> (words: Result<Vec<u32>, ShaderCodeError>)
    ensures
        match words {
            Ok(w) => spirv_words(code@) == Some(w@),
            Err(e) => e == ShaderCodeError::InvalidSpirv && spirv_words(code@) is None,
        },
{
    match read_spv(code) {
        Ok(words) => Ok(words),
        Err(_) => Err(ShaderCodeError::InvalidSpirv),
    }
}

} // verus!
