//! Bit-padding of sector data: after every 254 bits of data two zero bits are
//! inserted, so that every 32-byte node is below the field modulus. Bits are taken
//! least significant first within each byte.

use vstd::prelude::*;

use crate::bytes_amount::{padded_len, spec_padded};

verus! {

/// Bit `i` of the byte sequence `s` (0 or 1).
pub open spec fn bit_of(s: Seq<u8>, i: int) -> u8 {
    (s[i / 8] >> ((i % 8) as u8)) & 1u8
}

/// The byte whose bits, least significant first, are `b0` to `b7`.
pub open spec fn byte_of_bits(b0: u8, b1: u8, b2: u8, b3: u8, b4: u8, b5: u8, b6: u8, b7: u8) -> u8 {
    b0 | (b1 << 1u8) | (b2 << 2u8) | (b3 << 3u8) | (b4 << 4u8) | (b5 << 5u8) | (b6 << 6u8) | (b7
        << 7u8)
}

/// Bit `j` of the padding of `s`: the bits of each 256-bit node are 254 data bits
/// followed by two zero bits; past the end of the data the bits are zero.
pub open spec fn padded_bit(s: Seq<u8>, j: int) -> u8 {
    let k = j % 256;
    let i = 254 * (j / 256) + k;
    if k < 254 && i < 8 * s.len() {
        bit_of(s, i)
    } else {
        0
    }
}

/// Bit `i` of the data held by the padded bytes `p`.
pub open spec fn unpadded_bit(p: Seq<u8>, i: int) -> u8 {
    bit_of(p, 256 * (i / 254) + i % 254)
}

/// The padding of `s`, `spec_padded(s.len())` bytes long.
#[verifier::opaque]
pub open spec fn spec_pad(s: Seq<u8>) -> Seq<u8> {
    Seq::new(
        spec_padded(s.len()),
        |b: int|
            byte_of_bits(
                padded_bit(s, 8 * b),
                padded_bit(s, 8 * b + 1),
                padded_bit(s, 8 * b + 2),
                padded_bit(s, 8 * b + 3),
                padded_bit(s, 8 * b + 4),
                padded_bit(s, 8 * b + 5),
                padded_bit(s, 8 * b + 6),
                padded_bit(s, 8 * b + 7),
            ),
    )
}

/// The first `n` data bytes held by the padded bytes `p`.
#[verifier::opaque]
pub open spec fn spec_unpad(p: Seq<u8>, n: nat) -> Seq<u8> {
    Seq::new(
        n,
        |b: int|
            byte_of_bits(
                unpadded_bit(p, 8 * b),
                unpadded_bit(p, 8 * b + 1),
                unpadded_bit(p, 8 * b + 2),
                unpadded_bit(p, 8 * b + 3),
                unpadded_bit(p, 8 * b + 4),
                unpadded_bit(p, 8 * b + 5),
                unpadded_bit(p, 8 * b + 6),
                unpadded_bit(p, 8 * b + 7),
            ),
    )
}

fn bit_at(s: &[u8], i: u128) -> (r: u8)
    requires
        i < 8 * s@.len(),
    ensures
        r == bit_of(s@, i as int),
{
    (s[(i / 8) as usize] >> ((i % 8) as u8)) & 1
}

fn padded_bit_at(s: &[u8], j: u128) -> (r: u8)
    requires
        j < u128::MAX / 2,
    ensures
        r == padded_bit(s@, j as int),
{
    let k = j % 256;
    let i = 254 * (j / 256) + k;
    if k < 254 && i < 8 * (s.len() as u128) {
        bit_at(s, i)
    } else {
        0
    }
}

fn unpadded_bit_at(p: &[u8], i: u128) -> (r: u8)
    requires
        256 * (i / 254) + i % 254 < 8 * p@.len(),
    ensures
        r == unpadded_bit(p@, i as int),
{
    let _len = p.len();
    bit_at(p, 256 * (i / 254) + i % 254)
}

/// Bit-pads `data`: the result has `spec_padded(data.len())` bytes.
pub fn pad(data: &[u8]) -> (r: Vec<u8>)
    requires
        spec_padded(data@.len()) <= usize::MAX,
    ensures
        r@ == spec_pad(data@),
        r@.len() == spec_padded(data@.len()),
{
    let len = padded_len(data.len() as u64) as usize;
    let mut out: Vec<u8> = Vec::with_capacity(len);
    let mut b: usize = 0;
    while b < len
        invariant
            len == spec_padded(data@.len()),
            b <= len,
            out@.len() == b,
            forall|c: int| 0 <= c < b ==> out@[c] == spec_pad(data@)[c],
        decreases len - b,
    {
        let j: u128 = 8 * (b as u128);
        let byte = padded_bit_at(data, j) | (padded_bit_at(data, j + 1) << 1u8) | (padded_bit_at(
            data,
            j + 2,
        ) << 2u8) | (padded_bit_at(data, j + 3) << 3u8) | (padded_bit_at(data, j + 4) << 4u8) | (
        padded_bit_at(data, j + 5) << 5u8) | (padded_bit_at(data, j + 6) << 6u8) | (padded_bit_at(
            data,
            j + 7,
        ) << 7u8);
        proof {
            reveal(spec_pad);
        }
        out.push(byte);
        b = b + 1;
    }
    proof {
        reveal(spec_pad);
    }
    assert(out@ =~= spec_pad(data@));
    out
}

/// Lays bit positions of the data out in the padded bytes: the last data bit of `n`
/// bytes falls within the first `spec_padded(n)` bytes.
proof fn lemma_unpadded_bit_in_range(n: nat, i: int)
    requires
        0 <= i < 8 * n,
    ensures
        256 * (i / 254) + i % 254 < 8 * spec_padded(n),
{
    let q = (8 * n) / 254;
    let r = (8 * n) % 254;
    assert(8 * spec_padded(n) >= 256 * q + r);
    let qi = i / 254;
    let ri = i % 254;
    assert(i == 254 * qi + ri);
    if qi < q {
        assert(256 * qi + ri < 256 * q);
    } else {
        assert(qi == q);
        assert(ri < r);
    }
}

/// The first `n` data bytes held by the padded bytes `padded`, which must be long
/// enough to hold them.
pub fn unpad(padded: &[u8], n: usize) -> (r: Vec<u8>)
    requires
        spec_padded(n as nat) <= padded@.len(),
    ensures
        r@ == spec_unpad(padded@, n as nat),
        r@.len() == n,
{
    let mut out: Vec<u8> = Vec::with_capacity(n);
    let mut b: usize = 0;
    while b < n
        invariant
            spec_padded(n as nat) <= padded@.len(),
            b <= n,
            out@.len() == b,
            forall|c: int| 0 <= c < b ==> out@[c] == spec_unpad(padded@, n as nat)[c],
        decreases n - b,
    {
        let i: u128 = 8 * (b as u128);
        proof {
            lemma_unpadded_bit_in_range(n as nat, i as int);
            lemma_unpadded_bit_in_range(n as nat, i + 1);
            lemma_unpadded_bit_in_range(n as nat, i + 2);
            lemma_unpadded_bit_in_range(n as nat, i + 3);
            lemma_unpadded_bit_in_range(n as nat, i + 4);
            lemma_unpadded_bit_in_range(n as nat, i + 5);
            lemma_unpadded_bit_in_range(n as nat, i + 6);
            lemma_unpadded_bit_in_range(n as nat, i + 7);
        }
        let byte = unpadded_bit_at(padded, i) | (unpadded_bit_at(padded, i + 1) << 1u8) | (
        unpadded_bit_at(padded, i + 2) << 2u8) | (unpadded_bit_at(padded, i + 3) << 3u8) | (
        unpadded_bit_at(padded, i + 4) << 4u8) | (unpadded_bit_at(padded, i + 5) << 5u8) | (
        unpadded_bit_at(padded, i + 6) << 6u8) | (unpadded_bit_at(padded, i + 7) << 7u8);
        proof {
            reveal(spec_unpad);
        }
        out.push(byte);
        b = b + 1;
    }
    proof {
        reveal(spec_unpad);
    }
    assert(out@ =~= spec_unpad(padded@, n as nat));
    out
}

proof fn lemma_bit_le_one(x: u8, k: u8)
    ensures
        (x >> k) & 1u8 <= 1u8,
{
    assert((x >> k) & 1u8 <= 1u8) by (bit_vector);
}

/// A byte is rebuilt from its eight bits.
proof fn lemma_byte_from_bits(x: u8)
    ensures
        x == byte_of_bits(
            (x >> 0u8) & 1u8,
            (x >> 1u8) & 1u8,
            (x >> 2u8) & 1u8,
            (x >> 3u8) & 1u8,
            (x >> 4u8) & 1u8,
            (x >> 5u8) & 1u8,
            (x >> 6u8) & 1u8,
            (x >> 7u8) & 1u8,
        ),
{
    assert(x == ((x >> 0u8) & 1u8) | (((x >> 1u8) & 1u8) << 1u8) | (((x >> 2u8) & 1u8) << 2u8) | (
    ((x >> 3u8) & 1u8) << 3u8) | (((x >> 4u8) & 1u8) << 4u8) | (((x >> 5u8) & 1u8) << 5u8) | (((x
        >> 6u8) & 1u8) << 6u8) | (((x >> 7u8) & 1u8) << 7u8)) by (bit_vector);
}

/// The bits of a byte built from bits are those bits.
proof fn lemma_bits_of_byte(b0: u8, b1: u8, b2: u8, b3: u8, b4: u8, b5: u8, b6: u8, b7: u8)
    requires
        b0 <= 1,
        b1 <= 1,
        b2 <= 1,
        b3 <= 1,
        b4 <= 1,
        b5 <= 1,
        b6 <= 1,
        b7 <= 1,
    ensures
        ({
            let x = byte_of_bits(b0, b1, b2, b3, b4, b5, b6, b7);
            &&& (x >> 0u8) & 1u8 == b0
            &&& (x >> 1u8) & 1u8 == b1
            &&& (x >> 2u8) & 1u8 == b2
            &&& (x >> 3u8) & 1u8 == b3
            &&& (x >> 4u8) & 1u8 == b4
            &&& (x >> 5u8) & 1u8 == b5
            &&& (x >> 6u8) & 1u8 == b6
            &&& (x >> 7u8) & 1u8 == b7
        }),
{
    let x = byte_of_bits(b0, b1, b2, b3, b4, b5, b6, b7);
    assert(x == b0 | (b1 << 1u8) | (b2 << 2u8) | (b3 << 3u8) | (b4 << 4u8) | (b5 << 5u8) | (b6
        << 6u8) | (b7 << 7u8));
    assert({
        let y = b0 | (b1 << 1u8) | (b2 << 2u8) | (b3 << 3u8) | (b4 << 4u8) | (b5 << 5u8) | (b6
            << 6u8) | (b7 << 7u8);
        &&& (y >> 0u8) & 1u8 == b0
        &&& (y >> 1u8) & 1u8 == b1
        &&& (y >> 2u8) & 1u8 == b2
        &&& (y >> 3u8) & 1u8 == b3
        &&& (y >> 4u8) & 1u8 == b4
        &&& (y >> 5u8) & 1u8 == b5
        &&& (y >> 6u8) & 1u8 == b6
        &&& (y >> 7u8) & 1u8 == b7
    }) by (bit_vector)
        requires
            b0 <= 1,
            b1 <= 1,
            b2 <= 1,
            b3 <= 1,
            b4 <= 1,
            b5 <= 1,
            b6 <= 1,
            b7 <= 1,
    ;
}

proof fn lemma_padded_bit_le_one(s: Seq<u8>, j: int)
    requires
        0 <= j,
    ensures
        padded_bit(s, j) <= 1,
{
    let k = j % 256;
    let i = 254 * (j / 256) + k;
    if k < 254 && i < 8 * s.len() {
        lemma_bit_le_one(s[i / 8], (i % 8) as u8);
    }
}

/// Each data bit is read back from the padding where it was put.
proof fn lemma_unpad_bit(s: Seq<u8>, i: int)
    requires
        0 <= i < 8 * s.len(),
    ensures
        unpadded_bit(spec_pad(s), i) == bit_of(s, i),
{
    reveal(spec_pad);
    let p = spec_pad(s);
    let j = 256 * (i / 254) + i % 254;
    lemma_unpadded_bit_in_range(s.len(), i);
    let b = j / 8;
    let t = j % 8;
    assert(0 <= b < p.len());
    lemma_padded_bit_le_one(s, 8 * b);
    lemma_padded_bit_le_one(s, 8 * b + 1);
    lemma_padded_bit_le_one(s, 8 * b + 2);
    lemma_padded_bit_le_one(s, 8 * b + 3);
    lemma_padded_bit_le_one(s, 8 * b + 4);
    lemma_padded_bit_le_one(s, 8 * b + 5);
    lemma_padded_bit_le_one(s, 8 * b + 6);
    lemma_padded_bit_le_one(s, 8 * b + 7);
    lemma_bits_of_byte(
        padded_bit(s, 8 * b),
        padded_bit(s, 8 * b + 1),
        padded_bit(s, 8 * b + 2),
        padded_bit(s, 8 * b + 3),
        padded_bit(s, 8 * b + 4),
        padded_bit(s, 8 * b + 5),
        padded_bit(s, 8 * b + 6),
        padded_bit(s, 8 * b + 7),
    );
    assert(j == 8 * b + t);
    assert(bit_of(p, j) == padded_bit(s, j)) by {
        if t == 0 {
        } else if t == 1 {
        } else if t == 2 {
        } else if t == 3 {
        } else if t == 4 {
        } else if t == 5 {
        } else if t == 6 {
        } else {
            assert(t == 7);
        }
    }
    assert(j / 256 == i / 254 && j % 256 == i % 254);
}

proof fn lemma_bit_of_byte_index(s: Seq<u8>, b: int, t: int)
    requires
        0 <= b < s.len(),
        0 <= t < 8,
    ensures
        bit_of(s, 8 * b + t) == (s[b] >> (t as u8)) & 1u8,
{
    assert((8 * b + t) / 8 == b && (8 * b + t) % 8 == t);
}

proof fn lemma_unpad_byte(s: Seq<u8>, b: int)
    requires
        0 <= b < s.len(),
    ensures
        spec_unpad(spec_pad(s), s.len())[b] == s[b],
{
    let p = spec_pad(s);
    lemma_unpad_bit(s, 8 * b);
    lemma_unpad_bit(s, 8 * b + 1);
    lemma_unpad_bit(s, 8 * b + 2);
    lemma_unpad_bit(s, 8 * b + 3);
    lemma_unpad_bit(s, 8 * b + 4);
    lemma_unpad_bit(s, 8 * b + 5);
    lemma_unpad_bit(s, 8 * b + 6);
    lemma_unpad_bit(s, 8 * b + 7);
    lemma_bit_of_byte_index(s, b, 0);
    lemma_bit_of_byte_index(s, b, 1);
    lemma_bit_of_byte_index(s, b, 2);
    lemma_bit_of_byte_index(s, b, 3);
    lemma_bit_of_byte_index(s, b, 4);
    lemma_bit_of_byte_index(s, b, 5);
    lemma_bit_of_byte_index(s, b, 6);
    lemma_bit_of_byte_index(s, b, 7);
    reveal(spec_unpad);
    lemma_byte_from_bits(s[b]);
}

/// Bit-padding data and reading the same number of bytes back out of the padding
/// gives the data back.
pub proof fn lemma_pad_round_trip(s: Seq<u8>)
    ensures
        spec_unpad(spec_pad(s), s.len()) == s,
{
    assert forall|b: int| 0 <= b < s.len() implies spec_unpad(spec_pad(s), s.len())[b] == s[b] by {
        lemma_unpad_byte(s, b);
    }
    reveal(spec_unpad);
    assert(spec_unpad(spec_pad(s), s.len()) =~= s);
}

} // verus!
