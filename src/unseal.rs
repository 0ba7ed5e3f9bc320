//! The arithmetic of unsealing a byte range: which padded bytes of an unsealed
//! sector hold a range given in unpadded terms.

use vstd::prelude::*;

use crate::bytes_amount::{padded_len, spec_padded, UnpaddedByteIndex, UnpaddedBytesAmount};
use crate::fr32::{lemma_pad_round_trip, spec_pad, spec_unpad, unpad};
use crate::pieces::{is_zero, is_zero_commitment, Commitment};

verus! {

/// Why a range cannot be unsealed.
#[derive(Clone, Copy, Debug, PartialEq, Eq, Structural)]
pub enum UnsealError {
    /// `comm_d` is the all-zero commitment.
    ZeroCommitment,
    /// The padded range ends past the end of the sector.
    RangeOutOfBounds { offset: u64, num_bytes: u64, sector_len: usize },
}

/// The first padded byte of the range.
pub open spec fn spec_range_start(offset: u64) -> nat {
    spec_padded(offset as nat)
}

/// One past the last padded byte of the range.
pub open spec fn spec_range_end(offset: u64, num_bytes: u64) -> nat {
    spec_padded(offset as nat) + spec_padded(num_bytes as nat)
}

/// What `unseal_range_bounds` answers.
pub open spec fn spec_unseal_range_bounds(
    comm_d: Commitment,
    offset: u64,
    num_bytes: u64,
    sector_len: usize,
) -> Result<(usize, usize), UnsealError> {
    if is_zero_commitment(comm_d) {
        Err(UnsealError::ZeroCommitment)
    } else if spec_range_end(offset, num_bytes) > sector_len {
        Err(UnsealError::RangeOutOfBounds { offset, num_bytes, sector_len })
    } else {
        Ok((spec_range_start(offset) as usize, spec_range_end(offset, num_bytes) as usize))
    }
}

/// The padded byte range `[start, end)` of an unsealed sector of `sector_len` bytes that
/// holds the `num_bytes` unpadded bytes starting at unpadded position `offset`.
///
/// Refuses the all-zero `comm_d`, and a range that does not lie within the sector.
pub fn unseal_range_bounds(
    comm_d: &Commitment,
    offset: UnpaddedByteIndex,
    num_bytes: UnpaddedBytesAmount,
    sector_len: usize,
) -> (r: Result<(usize, usize), UnsealError>)
    ensures
        r == spec_unseal_range_bounds(*comm_d, offset.0, num_bytes.0, sector_len),
{
    if is_zero(comm_d) {
        return Err(UnsealError::ZeroCommitment);
    }
    let start = padded_len(offset.0);
    let len = padded_len(num_bytes.0);
    if start > sector_len as u128 || len > sector_len as u128 - start {
        return Err(UnsealError::RangeOutOfBounds { offset: offset.0, num_bytes: num_bytes.0, sector_len });
    }
    Ok((start as usize, (start + len) as usize))
}

/// The unpadded bytes of the range `[offset, offset + num_bytes)` of an unsealed sector.
pub open spec fn spec_unsealed_bytes(sector: Seq<u8>, offset: u64, num_bytes: u64) -> Seq<u8> {
    spec_unpad(
        sector.subrange(spec_range_start(offset) as int, spec_range_end(offset, num_bytes) as int),
        num_bytes as nat,
    )
}

/// Reads `num_bytes` unpadded bytes starting at unpadded position `offset` out of the
/// unsealed (still bit-padded) sector bytes: takes the padded range that holds them
/// and removes the padding. Fails as `unseal_range_bounds` does.
pub fn unsealed_bytes(
    sector: &[u8],
    comm_d: &Commitment,
    offset: UnpaddedByteIndex,
    num_bytes: UnpaddedBytesAmount,
) -> (r: Result<Vec<u8>, UnsealError>)
    ensures
        r is Ok <==> spec_unseal_range_bounds(*comm_d, offset.0, num_bytes.0, sector@.len() as usize) is Ok,
        r is Err ==> r->Err_0 == spec_unseal_range_bounds(
            *comm_d,
            offset.0,
            num_bytes.0,
            sector@.len() as usize,
        )->Err_0,
        r is Ok ==> r->Ok_0@ == spec_unsealed_bytes(sector@, offset.0, num_bytes.0),
        r is Ok ==> r->Ok_0@.len() == num_bytes.0,
{
    let (start, end) = unseal_range_bounds(comm_d, offset, num_bytes, sector.len())?;
    let range = &sector[start..end];
    assert(num_bytes.0 <= spec_padded(num_bytes.0 as nat));
    Ok(unpad(range, num_bytes.0 as usize))
}

/// A piece whose padding a sector holds from the padded position of unpadded offset
/// `offset` on is read back whole by unsealing the unpadded range
/// `[offset, offset + piece length)`.
pub proof fn lemma_piece_round_trip(piece: Seq<u8>, sector: Seq<u8>, offset: u64)
    requires
        piece.len() <= u64::MAX,
        spec_range_end(offset, piece.len() as u64) <= sector.len(),
        sector.subrange(
            spec_range_start(offset) as int,
            spec_range_end(offset, piece.len() as u64) as int,
        ) == spec_pad(piece),
    ensures
        spec_unsealed_bytes(sector, offset, piece.len() as u64) == piece,
{
    lemma_pad_round_trip(piece);
}

} // verus!
