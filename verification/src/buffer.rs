//! Fixed-width text buffers: every text field of a record occupies exactly
//! `BUFFER_CAPACITY` bytes, zero-filled after the text.

use vstd::prelude::*;

verus! {

/// Number of bytes in every fixed-width text buffer.
pub const BUFFER_CAPACITY: usize = 512;

/// The buffer that holds `bytes`: byte `i` of the buffer is byte `i` of
/// `bytes` for every `i` below both `bytes.len()` and `BUFFER_CAPACITY`, and
/// zero elsewhere. Bytes of `bytes` at index `BUFFER_CAPACITY` and beyond do
/// not appear in the buffer.
pub open spec fn zero_padded(bytes: Seq<u8>) -> Seq<u8> {
    Seq::new(BUFFER_CAPACITY as nat, |i: int| if i < bytes.len() { bytes[i] } else { 0u8 })
}

/// Copies `bytes` to the front of a fresh buffer, dropping what does not fit.
pub fn fill(bytes: &[u8]) -> (buffer: [u8; 512])
    ensures
        buffer@ == zero_padded(bytes@),
{
    let mut buffer = [0u8; 512];
    let mut i: usize = 0;
    while i < 512 && i < bytes.len()
        invariant
            i <= 512,
            i <= bytes@.len(),
            forall|j: int| 0 <= j < i ==> buffer@[j] == bytes@[j],
            forall|j: int| i <= j < 512 ==> buffer@[j] == 0u8,
        decreases 512 - i,
    {
        buffer[i] = bytes[i];
        i += 1;
    }
    buffer
}

/// A text that fits is kept whole: it can be read back from the front of
/// its buffer, and every byte after it is zero.
pub proof fn lemma_padding_keeps_text(bytes: Seq<u8>)
    requires
        bytes.len() <= BUFFER_CAPACITY,
    ensures
        zero_padded(bytes).len() == BUFFER_CAPACITY,
        zero_padded(bytes).subrange(0, bytes.len() as int) == bytes,
        forall|i: int| bytes.len() <= i < BUFFER_CAPACITY ==> zero_padded(bytes)[i] == 0u8,
{
}

/// A text that does not fit is cut at the capacity: the buffer holds exactly
/// its first `BUFFER_CAPACITY` bytes.
pub proof fn lemma_padding_truncates(bytes: Seq<u8>)
    requires
        bytes.len() >= BUFFER_CAPACITY,
    ensures
        zero_padded(bytes) == bytes.subrange(0, BUFFER_CAPACITY as int),
{
}

} // verus!
