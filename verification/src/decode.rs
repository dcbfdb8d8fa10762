//! Instruction decoding.
//!
//! An instruction is a 16-bit word split into four nibble fields:
//! `c` (bits 12-15, operation class), `x` (bits 8-11, first register),
//! `y` (bits 4-7, second register) and `d` (bits 0-3, sub-operation),
//! plus a 12-bit address immediate `nnn` (bits 0-11). Decoding is total:
//! every word yields a field tuple, and validity is judged later by the
//! dispatcher.

use vstd::prelude::*;

verus! {

/// Operation class: the top nibble of the word.
pub open spec fn op_c(word: u16) -> u8 {
    (word / 0x1000) as u8
}

/// First register index: bits 8-11 of the word.
pub open spec fn op_x(word: u16) -> u8 {
    ((word / 0x100) % 16) as u8
}

/// Second register index: bits 4-7 of the word.
pub open spec fn op_y(word: u16) -> u8 {
    ((word / 0x10) % 16) as u8
}

/// Sub-operation selector: the bottom nibble of the word.
pub open spec fn op_d(word: u16) -> u8 {
    (word % 16) as u8
}

/// Address immediate: the bottom 12 bits of the word.
pub open spec fn op_nnn(word: u16) -> u16 {
    (word % 0x1000) as u16
}

/// Every field is a nibble and the immediate is 12 bits wide.
pub proof fn lemma_fields_bounded(word: u16)
    ensures
        op_c(word) < 16,
        op_x(word) < 16,
        op_y(word) < 16,
        op_d(word) < 16,
        op_nnn(word) < 0x1000,
{
}

/// Decoding loses nothing: the four nibble fields reassemble the word,
/// and the address immediate is the lower three of them.
pub proof fn lemma_fields_reassemble(word: u16)
    ensures
        op_c(word) * 0x1000 + op_x(word) * 0x100 + op_y(word) * 0x10 + op_d(word) == word,
        op_x(word) * 0x100 + op_y(word) * 0x10 + op_d(word) == op_nnn(word),
{
    assert((word / 0x1000) * 0x1000 + ((word / 0x100) % 16) * 0x100 + ((word / 0x10) % 16) * 0x10
        + word % 16 == word) by (bit_vector);
    assert(((word / 0x100) % 16) * 0x100 + ((word / 0x10) % 16) * 0x10 + word % 16 == word
        % 0x1000) by (bit_vector);
}

/// Split a word into its `(c, x, y, d, nnn)` fields.
///
/// Decoding is total (no precondition) and deterministic: the result is
/// fixed by the word alone, through the five field functions.
pub fn decode(word: u16) -> (r: (u8, u8, u8, u8, u16))
    ensures
        r.0 == op_c(word),
        r.1 == op_x(word),
        r.2 == op_y(word),
        r.3 == op_d(word),
        r.4 == op_nnn(word),
{
    let c = ((word & 0xF000) >> 12) as u8;
    let x = ((word & 0x0F00) >> 8) as u8;
    let y = ((word & 0x00F0) >> 4) as u8;
    let d = (word & 0x000F) as u8;
    let nnn = word & 0x0FFF;
    proof {
        assert((word & 0xF000) >> 12 == word / 0x1000) by (bit_vector);
        assert((word & 0x0F00) >> 8 == (word / 0x100) % 16) by (bit_vector);
        assert((word & 0x00F0) >> 4 == (word / 0x10) % 16) by (bit_vector);
        assert(word & 0x000F == word % 16) by (bit_vector);
        assert(word & 0x0FFF == word % 0x1000) by (bit_vector);
    }
    (c, x, y, d, nnn)
}

} // verus!
