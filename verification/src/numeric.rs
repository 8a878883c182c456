//! The 256-bit unsigned integer and its lossy narrowing to 64 bits.

use vstd::prelude::*;
use vstd::arithmetic::power2::{pow2, lemma2_to64, lemma_pow2_adds};
use vstd::arithmetic::div_mod::{lemma_mod_multiples_vanish, lemma_small_mod};

verus! {

/// The numeric value of a sequence of 64-bit limbs, least significant first.
pub open spec fn limbs_value(limbs: Seq<u64>) -> nat
    decreases limbs.len(),
{
    if limbs.len() == 0 {
        0
    } else {
        (limbs[0] + pow2(64) * limbs_value(limbs.drop_first())) as nat
    }
}

/// A 256-bit unsigned integer, held as four 64-bit limbs, least significant
/// first.
pub struct U256 {
    pub limbs: [u64; 4],
}

impl U256 {
    /// The mathematical value of the integer.
    pub open spec fn value(&self) -> nat {
        limbs_value(self.limbs@)
    }

    /// Assembles an integer from its four limbs, least significant first.
    pub fn from_limbs(limbs: [u64; 4]) -> (r: U256)
        ensures
            r.limbs@ == limbs@,
            r.value() == limbs_value(limbs@),
    {
        U256 { limbs }
    }

    /// The low 64 bits of the integer: its value reduced modulo `2^64`.
    /// Higher-order bits are discarded without error or warning — the
    /// narrowing is lossy by design, and a value at or above `2^64`
    /// serializes incorrectly on purpose.
    pub fn low_u64(&self) -> (r: u64)
        ensures
            r == self.value() % pow2(64),
            r == self.limbs@[0],
    {
        proof {
            lemma_low_limb_is_mod(self.limbs@);
        }
        self.limbs[0]
    }
}

/// The lowest limb of a non-empty limb sequence is the value modulo `2^64`.
pub proof fn lemma_low_limb_is_mod(limbs: Seq<u64>)
    requires
        limbs.len() > 0,
    ensures
        limbs_value(limbs) % pow2(64) == limbs[0],
{
    lemma2_to64();
    let rest = limbs_value(limbs.drop_first()) as int;
    let low = limbs[0] as int;
    let m = pow2(64) as int;
    lemma_mod_multiples_vanish(rest, low, m);
    assert((m * rest + low) % m == low % m);
    lemma_small_mod(limbs[0] as nat, pow2(64));
    assert(limbs_value(limbs) == m * rest + low);
}

} // verus!
