//! Text adapters: byte buffers decoded as UTF-8 and rendered either
//! upper-cased (opcode mnemonics) or unchanged (plain text). A buffer that is
//! not valid UTF-8 renders as the empty string; the failure is swallowed on
//! purpose so that the surrounding encode never aborts.

use vstd::prelude::*;
use vstd::utf8::{
    valid_utf8, decode_utf8, valid_first_scalar, pop_first_scalar, length_of_first_scalar,
    valid_leading_and_continuation_bytes_first_codepoint,
};

verus! {

/// Named result of str::to_uppercase: the upper-cased form of a character
/// sequence, a function of the characters alone.
pub uninterp spec fn upper_of(s: Seq<char>) -> Seq<char>;

/// What the opcode adapter produces: the buffer decoded as UTF-8 and
/// upper-cased, or the empty sequence when the bytes are not valid UTF-8.
pub open spec fn opcode_encoding(bytes: Seq<u8>) -> Seq<char> {
    if valid_utf8(bytes) {
        upper_of(decode_utf8(bytes))
    } else {
        Seq::empty()
    }
}

/// What the plain-string adapter produces: the buffer decoded as UTF-8,
/// unchanged, or the empty sequence when the bytes are not valid UTF-8.
pub open spec fn string_encoding(bytes: Seq<u8>) -> Seq<char> {
    if valid_utf8(bytes) {
        decode_utf8(bytes)
    } else {
        Seq::empty()
    }
}

/// Relies on std::str::from_utf8: it succeeds exactly on valid UTF-8 input,
/// and then returns the text those bytes encode.
#[verifier::external_body]
fn decode_utf8_bytes(bytes: &[u8]) -> (r: Option<&str>)
    ensures
        match r {
            Some(s) => valid_utf8(bytes@) && s@ == decode_utf8(bytes@),
            None => !valid_utf8(bytes@),
        },
{
    std::str::from_utf8(bytes).ok()
}

/// Relies on str::to_uppercase: the result depends on the characters alone,
/// and an empty string stays empty.
#[verifier::external_body]
fn to_upper(s: &str) -> (r: String)
    ensures
        r@ == upper_of(s@),
        s@.len() == 0 ==> r@.len() == 0,
{
    s.to_uppercase()
}

/// Renders a buffer expected to hold an ASCII opcode mnemonic: the bytes
/// decoded as UTF-8 and upper-cased, or the empty string on invalid UTF-8.
pub fn opcode_encode(bytes: &[u8]) -> (r: String)
    ensures
        r@ == opcode_encoding(bytes@),
{
    match decode_utf8_bytes(bytes) {
        Some(s) => to_upper(s),
        None => String::new(),
    }
}

/// Renders a buffer expected to hold text: the bytes decoded as UTF-8,
/// unchanged, or the empty string on invalid UTF-8.
pub fn string_encode(bytes: &[u8]) -> (r: String)
    ensures
        r@ == string_encoding(bytes@),
{
    match decode_utf8_bytes(bytes) {
        Some(s) => s.to_owned(),
        None => String::new(),
    }
}

/// Every byte of a valid UTF-8 sequence is below 0xf8: it is either a
/// leading byte of some width or a continuation byte.
proof fn lemma_valid_utf8_bytes_below_f8(bytes: Seq<u8>)
    requires
        valid_utf8(bytes),
    ensures
        forall|i: int| 0 <= i < bytes.len() ==> bytes[i] < 0xf8,
    decreases bytes.len(),
{
    if bytes.len() != 0 {
        assert(valid_first_scalar(bytes));
        assert(valid_leading_and_continuation_bytes_first_codepoint(bytes));
        let k = length_of_first_scalar(bytes);
        assert(1 <= k <= 4 && k <= bytes.len());
        lemma_valid_utf8_bytes_below_f8(pop_first_scalar(bytes));
        assert forall|i: int| 0 <= i < bytes.len() implies bytes[i] < 0xf8 by {
            if i < k {
                assert(bytes[i] < 0xf8);
            } else {
                assert(bytes[i] == pop_first_scalar(bytes)[i - k]);
            }
        }
    }
}

/// A buffer holding a byte that can never occur in UTF-8 (0xfe or 0xff)
/// fails decoding, so both text adapters render it as the empty string —
/// never as an error.
pub proof fn lemma_invalid_byte_gives_empty(bytes: Seq<u8>, i: int)
    requires
        0 <= i < bytes.len(),
        bytes[i] == 0xfe || bytes[i] == 0xff,
    ensures
        !valid_utf8(bytes),
        opcode_encoding(bytes) == Seq::<char>::empty(),
        string_encoding(bytes) == Seq::<char>::empty(),
{
    if valid_utf8(bytes) {
        lemma_valid_utf8_bytes_below_f8(bytes);
    }
}

} // verus!
