//! Byte amounts before and after bit-padding.
//!
//! Every 32-byte node of a sector holds 254 bits of user data and 2 bits of padding,
//! so 127 unpadded bytes occupy 128 padded bytes.

use vstd::prelude::*;

verus! {

/// A number of user (unpadded) bytes.
#[derive(Clone, Copy, Debug, PartialEq, Eq, Structural)]
pub struct UnpaddedBytesAmount(pub u64);

/// A number of bit-padded bytes, as stored in a sector.
#[derive(Clone, Copy, Debug, PartialEq, Eq, Structural)]
pub struct PaddedBytesAmount(pub u64);

/// A byte position in the user (unpadded) view of a sector.
#[derive(Clone, Copy, Debug, PartialEq, Eq, Structural)]
pub struct UnpaddedByteIndex(pub u64);

/// The number of padded bytes that `n` unpadded bytes take: the data bits are
/// grouped by 254, each full group grows to 256 bits, and the last partial byte
/// is rounded up.
pub open spec fn spec_padded(n: nat) -> nat {
    let bits = 8 * n;
    (256 * (bits / 254) + bits % 254 + 7) / 8
}

/// The number of unpadded bytes that `n` padded bytes hold: every 256 bits give
/// back 254, and a trailing partial byte is dropped.
pub open spec fn spec_unpadded(n: nat) -> nat {
    let bits = 8 * n;
    (254 * (bits / 256) + bits % 256) / 8
}

/// `n` is a power of two.
pub open spec fn is_pow2(n: nat) -> bool
    decreases n,
{
    if n == 1 {
        true
    } else if n < 2 || n % 2 == 1 {
        false
    } else {
        is_pow2(n / 2)
    }
}

/// A piece size is valid when it is at least the minimum piece size and its padded
/// size is a power of two.
pub open spec fn is_valid_piece_size(n: nat) -> bool {
    n >= crate::constants::MIN_PIECE_SIZE && is_pow2(spec_padded(n))
}

/// The padded size of `n` unpadded bytes, without the bound of a `u64`.
pub fn padded_len(n: u64) -> (r: u128)
    ensures
        r == spec_padded(n as nat),
{
    let bits: u128 = n as u128 * 8;
    let groups: u128 = bits / 254;
    let rest: u128 = bits % 254;
    assert(groups * 256 <= bits * 2) by (nonlinear_arith)
        requires
            groups == bits / 254,
    ;
    (groups * 256 + rest + 7) / 8
}

/// The unpadded size of `n` padded bytes.
pub fn unpadded_len(n: u64) -> (r: u64)
    ensures
        r == spec_unpadded(n as nat),
        r <= n,
{
    let bits: u128 = n as u128 * 8;
    let groups: u128 = bits / 256;
    let rest: u128 = bits % 256;
    let r: u128 = (groups * 254 + rest) / 8;
    assert(r <= n);
    r as u64
}

/// Whether `n` is a power of two.
pub fn is_power_of_two(n: u128) -> (r: bool)
    ensures
        r == is_pow2(n as nat),
{
    let mut m: u128 = n;
    while m >= 2 && m % 2 == 0
        invariant
            is_pow2(m as nat) == is_pow2(n as nat),
        decreases m,
    {
        m = m / 2;
    }
    m == 1
}

impl UnpaddedBytesAmount {
    /// The padded amount these bytes take.
    pub fn padded(self) -> (r: PaddedBytesAmount)
        requires
            spec_padded(self.0 as nat) <= u64::MAX,
        ensures
            r.0 == spec_padded(self.0 as nat),
    {
        PaddedBytesAmount(padded_len(self.0) as u64)
    }
}

impl PaddedBytesAmount {
    /// The unpadded amount these bytes hold.
    pub fn unpadded(self) -> (r: UnpaddedBytesAmount)
        ensures
            r.0 == spec_unpadded(self.0 as nat),
    {
        UnpaddedBytesAmount(unpadded_len(self.0))
    }
}

/// Removing the bit-padding of a padded byte count gives back the unpadded count it
/// came from, for every count.
pub proof fn lemma_padding_round_trip(n: nat)
    ensures
        spec_unpadded(spec_padded(n)) == n,
{
    let bits = 8 * n;
    let q = bits / 254;
    let r = bits % 254;
    let t = 256 * q + r;
    let p = spec_padded(n);
    assert(bits == 254 * q + r && 0 <= r < 254);
    assert(t <= 8 * p <= t + 7);
    let big = 8 * p;
    if big < 256 * q + 256 {
        assert(big / 256 == q);
        assert(big % 256 == big - 256 * q);
        assert(254 * q + (big - 256 * q) >= bits);
        assert(254 * q + (big - 256 * q) <= bits + 7);
        assert(spec_unpadded(p) == (254 * q + (big - 256 * q)) / 8);
    } else {
        assert(big == 256 * q + 256);
        assert(big / 256 == q + 1);
        assert(big % 256 == 0);
        assert(spec_unpadded(p) == (254 * q + 254) / 8);
    }
}

} // verus!
