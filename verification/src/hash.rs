//! The fixed 256-bit hash and its hex renderings, bare and `0x`-prefixed.

use vstd::prelude::*;
use crate::hexfmt::{hex_digit, hex_of, prefixed_hex_of, hex_encode, bytes_0x_encode, lemma_hex_of_len, lemma_hex_of_digits};

verus! {

/// A fixed-width 256-bit hash, held as its 32 bytes in big-endian order.
pub struct H256 {
    pub bytes: [u8; 32],
}

impl View for H256 {
    type V = Seq<u8>;

    open spec fn view(&self) -> Seq<u8> {
        self.bytes@
    }
}

impl H256 {
    /// Wraps 32 raw bytes as a hash value.
    pub fn new(bytes: [u8; 32]) -> (r: H256)
        ensures
            r@ == bytes@,
    {
        H256 { bytes }
    }

    /// Renders the hash as 64 lowercase hex digits with no prefix.
    pub fn bare_hex(&self) -> (r: String)
        ensures
            r@ == hex_of(self@),
            r@.len() == 64,
    {
        proof {
            lemma_hex_of_len(self@);
        }
        hex_encode(self.bytes.as_slice())
    }

    /// Renders the hash as 64 lowercase hex digits behind a `0x` prefix.
    pub fn prefixed_hex(&self) -> (r: String)
        ensures
            r@ == prefixed_hex_of(self@),
            r@.len() == 66,
    {
        bytes_0x_encode(self.bytes.as_slice())
    }
}

/// Encodes an ordered sequence of hashes, one bare hex string per hash, in
/// the input order and with no element skipped.
pub fn seq_h256_encode(data: &[H256]) -> (r: Vec<String>)
    ensures
        r@.len() == data@.len(),
        forall|i: int| 0 <= i < data@.len() ==> #[trigger] r@[i]@ == hex_of(data@[i]@),
{
    let mut out: Vec<String> = Vec::new();
    let mut k: usize = 0;
    while k < data.len()
        invariant
            k <= data@.len(),
            out@.len() == k,
            forall|i: int| 0 <= i < k ==> #[trigger] out@[i]@ == hex_of(data@[i]@),
        decreases data@.len() - k,
    {
        out.push(data[k].bare_hex());
        k = k + 1;
    }
    out
}

/// The prefixed rendering of a byte sequence is exactly its bare rendering
/// with the two characters `0x` put in front, and a bare rendering never
/// itself begins with `0x`: no character of it is an `x`.
pub proof fn lemma_bare_vs_prefixed(s: Seq<u8>)
    ensures
        prefixed_hex_of(s)[0] == '0',
        prefixed_hex_of(s)[1] == 'x',
        prefixed_hex_of(s).skip(2) == hex_of(s),
        forall|i: int| 0 <= i < hex_of(s).len() ==> #[trigger] hex_of(s)[i] != 'x',
{
    assert(prefixed_hex_of(s).skip(2) =~= hex_of(s));
    lemma_hex_of_digits(s);
    assert forall|i: int| 0 <= i < hex_of(s).len() implies #[trigger] hex_of(s)[i] != 'x' by {
        let n = choose|n: u8| n < 16 && hex_of(s)[i] == hex_digit(n);
        assert(hex_digit(n) != 'x');
    }
}

} // verus!
