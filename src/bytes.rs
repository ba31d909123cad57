//! Big-endian byte/word helpers shared by the wire protocol and the Modbus layer.
use vstd::prelude::*;

verus! {

/// The 16-bit word whose big-endian encoding is `hi, lo`.
pub open spec fn be_word(hi: u8, lo: u8) -> u16 {
    (hi as int * 256 + lo as int) as u16
}

/// Most significant byte of a word.
pub open spec fn hi_byte(w: u16) -> u8 {
    (w / 256) as u8
}

/// Least significant byte of a word.
pub open spec fn lo_byte(w: u16) -> u8 {
    (w % 256) as u8
}

/// Big-endian encoding of a word.
pub open spec fn word_bytes(w: u16) -> Seq<u8> {
    seq![hi_byte(w), lo_byte(w)]
}

/// Splitting a word into bytes and joining them again gives the word back.
pub proof fn lemma_word_round_trip(w: u16)
    ensures
        be_word(hi_byte(w), lo_byte(w)) == w,
{
}

/// Combines two bytes, most significant first, into a 16-bit word.
pub fn word_from_be(hi: u8, lo: u8) -> (r: u16)
    ensures
        r == be_word(hi, lo),
{
    (hi as u16) * 256 + (lo as u16)
}

/// Splits a 16-bit word into its bytes, most significant first.
pub fn word_to_be(w: u16) -> (r: [u8; 2])
    ensures
        r@ == word_bytes(w),
{
    let r = [(w / 256) as u8, (w % 256) as u8];
    assert(r@ =~= word_bytes(w));
    r
}

} // verus!
