//! Lowercase hexadecimal rendering of byte buffers, bare and `0x`-prefixed.

use vstd::prelude::*;
use vstd::string::StringExecFns;

verus! {

/// The lowercase hexadecimal digit standing for a value below sixteen.
pub open spec fn hex_digit(n: u8) -> char
    recommends
        n < 16,
{
    if n == 0 {
        '0'
    } else if n == 1 {
        '1'
    } else if n == 2 {
        '2'
    } else if n == 3 {
        '3'
    } else if n == 4 {
        '4'
    } else if n == 5 {
        '5'
    } else if n == 6 {
        '6'
    } else if n == 7 {
        '7'
    } else if n == 8 {
        '8'
    } else if n == 9 {
        '9'
    } else if n == 10 {
        'a'
    } else if n == 11 {
        'b'
    } else if n == 12 {
        'c'
    } else if n == 13 {
        'd'
    } else if n == 14 {
        'e'
    } else {
        'f'
    }
}

/// Lowercase hex encoding of a byte sequence: two digits per byte, high
/// nibble first, bytes in their original order.
pub open spec fn hex_of(s: Seq<u8>) -> Seq<char>
    decreases s.len(),
{
    if s.len() == 0 {
        Seq::empty()
    } else {
        seq![hex_digit((s[0] / 16) as u8), hex_digit((s[0] % 16) as u8)] + hex_of(s.drop_first())
    }
}

/// The `0x`-prefixed form of the same encoding.
pub open spec fn prefixed_hex_of(s: Seq<u8>) -> Seq<char> {
    seq!['0', 'x'] + hex_of(s)
}

/// A hex encoding is exactly twice as long as its input.
pub proof fn lemma_hex_of_len(s: Seq<u8>)
    ensures
        hex_of(s).len() == 2 * s.len(),
    decreases s.len(),
{
    if s.len() != 0 {
        lemma_hex_of_len(s.drop_first());
    }
}

/// Every character of a hex encoding is a lowercase hex digit.
pub proof fn lemma_hex_of_digits(s: Seq<u8>)
    ensures
        forall|i: int|
            0 <= i < hex_of(s).len() ==> exists|n: u8| n < 16 && #[trigger] hex_of(s)[i]
                == hex_digit(n),
    decreases s.len(),
{
    if s.len() != 0 {
        lemma_hex_of_digits(s.drop_first());
        assert forall|i: int| 0 <= i < hex_of(s).len() implies exists|n: u8| n < 16
            && #[trigger] hex_of(s)[i] == hex_digit(n) by {
            if i == 0 {
                let n: u8 = (s[0] / 16) as u8;
                assert(n < 16 && hex_of(s)[i] == hex_digit(n));
            } else if i == 1 {
                let n: u8 = (s[0] % 16) as u8;
                assert(n < 16 && hex_of(s)[i] == hex_digit(n));
            } else {
                assert(hex_of(s)[i] == hex_of(s.drop_first())[i - 2]);
            }
        }
    }
}

/// Relies on hex::encode: it renders each input byte as two lowercase hex
/// digits, high nibble first, keeping byte order.
#[verifier::external_body]
pub(crate) fn hex_encode(bytes: &[u8]) -> (r: String)
    ensures
        r@ == hex_of(bytes@),
{
    hex::encode(bytes)
}

/// Renders an arbitrary byte buffer as `"0x"` followed by its lowercase hex
/// encoding; an empty buffer yields exactly `"0x"`.
pub fn bytes_0x_encode(bytes: &[u8]) -> (r: String)
    ensures
        r@ == prefixed_hex_of(bytes@),
        r@.len() == 2 * bytes@.len() + 2,
{
    let mut out = String::from_str("0x");
    let hexpart = hex_encode(bytes);
    out.append(hexpart.as_str());
    proof {
        reveal_strlit("0x");
        lemma_hex_of_len(bytes@);
        assert(out@ =~= prefixed_hex_of(bytes@));
    }
    out
}

} // verus!
