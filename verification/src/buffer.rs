//! Byte buffers: what the library knows of `bytes::Bytes`, and the memory
//! image of a run of words.

use vstd::prelude::*;

verus! {

/// `bytes::Bytes`, a cheaply cloneable and immutable run of bytes. Nothing of
/// its inside is visible here; what it holds goes by the name [`contents`].
#[verifier::external_type_specification]
#[verifier::external_body]
pub struct ExBytes(bytes::Bytes);

/// The bytes that a `bytes::Bytes` holds, first to last.
pub uninterp spec fn contents(buffer: bytes::Bytes) -> Seq<u8>;

/// `Bytes::len` returns the number of bytes that the buffer holds.
pub assume_specification[ bytes::Bytes::len ](buffer: &bytes::Bytes) -> (r: usize)
    ensures
        r == contents(*buffer).len(),
;

/// `Bytes::clone` hands out another handle on the same bytes.
pub assume_specification[ <bytes::Bytes as Clone>::clone ](buffer: &bytes::Bytes) -> (r:
    bytes::Bytes)
    ensures
        contents(r) == contents(*buffer),
;

/// The four bytes of a word, least significant first.
pub open spec fn le_bytes(word: u32) -> Seq<u8> {
    seq![
        (word % 0x100) as u8,
        (word / 0x100 % 0x100) as u8,
        (word / 0x1_0000 % 0x100) as u8,
        (word / 0x100_0000) as u8,
    ]
}

/// The four bytes of a word, most significant first.
pub open spec fn be_bytes(word: u32) -> Seq<u8> {
    seq![
        (word / 0x100_0000) as u8,
        (word / 0x1_0000 % 0x100) as u8,
        (word / 0x100 % 0x100) as u8,
        (word % 0x100) as u8,
    ]
}

/// The words laid end to end, each least significant byte first.
pub open spec fn little_endian(words: Seq<u32>) -> Seq<u8> {
    Seq::new(4 * words.len(), |i: int| le_bytes(words[i / 4])[i % 4])
}

/// The words laid end to end, each most significant byte first.
pub open spec fn big_endian(words: Seq<u32>) -> Seq<u8> {
    Seq::new(4 * words.len(), |i: int| be_bytes(words[i / 4])[i % 4])
}

/// Whether `bytes` is the memory image of `words` in one of the two byte
/// orders: the words laid end to end, each in the byte order of the machine.
/// Which of the two a machine uses is fixed for that machine; every
/// GPU-capable target today is little-endian.
pub open spec fn image_of(bytes: Seq<u8>, words: Seq<u32>) -> bool {
    bytes == little_endian(words) || bytes == big_endian(words)
}

/// `bytemuck::cast_slice` from `u32` to `u8`, copied out: the same memory read
/// byte by byte. The target has alignment one and a size that divides four, so
/// the cast cannot fail; each word appears as its four bytes in the machine's
/// byte order, and the words keep their order.
#[verifier::external_body]
pub(crate) fn memory_image(words: &Vec<u32>) -> (r: Vec<u8>)
    ensures
        image_of(r@, words@),
{
    bytemuck::cast_slice::<u32, u8>(words.as_slice()).to_vec()
}

} // verus!
