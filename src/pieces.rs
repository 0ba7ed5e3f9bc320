//! Pieces: validation of piece sizes, piece records, and the accounting of a piece
//! written into a sector.

use vstd::prelude::*;

use crate::bytes_amount::{
    is_pow2, is_power_of_two, is_valid_piece_size, padded_len, spec_padded, spec_unpadded,
    PaddedBytesAmount, UnpaddedBytesAmount,
};
use crate::constants::MINIMUM_RESERVED_BYTES_FOR_PIECE_IN_FULLY_ALIGNED_SECTOR;
use crate::fr32::{pad, spec_pad};

verus! {

/// A 32-byte commitment (a Merkle root or a hash-derived domain element).
pub type Commitment = [u8; 32];

/// The all-zero commitment, which stands for "unset" and is never a valid commitment.
pub open spec fn is_zero_commitment(c: Commitment) -> bool {
    forall|i: int| 0 <= i < 32 ==> c@[i] == 0u8
}

/// Whether every byte of `c` is zero.
pub fn is_zero(c: &Commitment) -> (r: bool)
    ensures
        r == is_zero_commitment(*c),
{
    let mut i: usize = 0;
    while i < 32
        invariant
            0 <= i <= 32,
            forall|j: int| 0 <= j < i ==> c@[j] == 0u8,
        decreases 32 - i,
    {
        if c[i] != 0 {
            return false;
        }
        i = i + 1;
    }
    true
}

/// Why a piece was refused.
#[derive(Clone, Copy, Debug, PartialEq, Eq, Structural)]
pub enum PieceError {
    /// The piece is smaller than the minimum piece size.
    TooSmall { size: u64 },
    /// The bit-padded size of the piece is not a power of two.
    NotPowerOfTwo { size: u64 },
    /// The commitment is all zeros.
    ZeroCommitment,
    /// No bytes were read from the source before its end.
    EmptySource,
    /// The number of bytes written does not match the piece size.
    SizeMismatch { expected: u64, actual: u64 },
}

/// The error that `ensure_piece_size` gives for a size, if any.
pub open spec fn piece_size_error(n: u64) -> Option<PieceError> {
    if n < MINIMUM_RESERVED_BYTES_FOR_PIECE_IN_FULLY_ALIGNED_SECTOR {
        Some(PieceError::TooSmall { size: n })
    } else if !is_pow2(spec_padded(n as nat)) {
        Some(PieceError::NotPowerOfTwo { size: n })
    } else {
        None
    }
}

/// Checks that a piece is at least the minimum piece size and that its bit-padded size
/// is a power of two.
pub fn ensure_piece_size(piece_size: UnpaddedBytesAmount) -> (r: Result<(), PieceError>)
    ensures
        r is Ok <==> is_valid_piece_size(piece_size.0 as nat),
        r is Err ==> piece_size_error(piece_size.0) == Some(r->Err_0),
        r is Ok ==> piece_size_error(piece_size.0) is None,
{
    if piece_size.0 < MINIMUM_RESERVED_BYTES_FOR_PIECE_IN_FULLY_ALIGNED_SECTOR {
        return Err(PieceError::TooSmall { size: piece_size.0 });
    }
    let padded = padded_len(piece_size.0);
    if !is_power_of_two(padded) {
        return Err(PieceError::NotPowerOfTwo { size: piece_size.0 });
    }
    Ok(())
}

/// One piece of user data in a sector: its commitment and its unpadded size.
#[derive(Clone, Copy, Debug, PartialEq, Eq)]
pub struct PieceInfo {
    pub commitment: Commitment,
    pub size: UnpaddedBytesAmount,
}

impl PieceInfo {
    /// A piece record is well formed when its commitment is set and its size valid.
    pub open spec fn wf(self) -> bool {
        !is_zero_commitment(self.commitment) && is_valid_piece_size(self.size.0 as nat)
    }

    /// Makes a piece record; refuses the all-zero commitment and invalid sizes.
    pub fn new(commitment: Commitment, size: UnpaddedBytesAmount) -> (r: Result<
        PieceInfo,
        PieceError,
    >)
        ensures
            r is Ok <==> !is_zero_commitment(commitment) && is_valid_piece_size(size.0 as nat),
            r is Ok ==> r->Ok_0.commitment == commitment && r->Ok_0.size == size
                && r->Ok_0.wf(),
            r is Err ==> r->Err_0 == (if is_zero_commitment(commitment) {
                PieceError::ZeroCommitment
            } else {
                piece_size_error(size.0).unwrap()
            }),
    {
        if is_zero(&commitment) {
            return Err(PieceError::ZeroCommitment);
        }
        match ensure_piece_size(size) {
            Err(e) => Err(e),
            Ok(()) => Ok(PieceInfo { commitment, size }),
        }
    }
}

/// What `write_and_preprocess` answers for a piece size, the padded byte count the
/// preprocessing copy wrote, and the commitment computed over those bytes.
pub open spec fn spec_write_and_preprocess(
    piece_size: u64,
    written: u64,
    commitment: Commitment,
) -> Result<(PieceInfo, UnpaddedBytesAmount), PieceError> {
    if piece_size_error(piece_size) is Some {
        Err(piece_size_error(piece_size).unwrap())
    } else if written == 0 {
        Err(PieceError::EmptySource)
    } else if spec_unpadded(written as nat) != piece_size {
        Err(PieceError::SizeMismatch { expected: piece_size, actual: spec_unpadded(written as nat) as u64 })
    } else if is_zero_commitment(commitment) {
        Err(PieceError::ZeroCommitment)
    } else {
        Ok((PieceInfo { commitment, size: UnpaddedBytesAmount(piece_size) }, UnpaddedBytesAmount(piece_size)))
    }
}

/// Accounts for a piece that was bit-padded and written to a sector with no alignment
/// bytes around it.
///
/// `written` is the number of padded bytes that the preprocessing copy produced and
/// `commitment` the commitment computed over them. The piece size must be valid, the
/// copy must have produced bytes, and those bytes must hold exactly `piece_size`
/// unpadded bytes. Returns the piece record and the number of unpadded bytes the piece
/// occupies in the sector.
pub fn write_and_preprocess(
    piece_size: UnpaddedBytesAmount,
    written: PaddedBytesAmount,
    commitment: Commitment,
) -> (r: Result<(PieceInfo, UnpaddedBytesAmount), PieceError>)
    ensures
        r == spec_write_and_preprocess(piece_size.0, written.0, commitment),
        r is Ok ==> r->Ok_0.0.wf(),
{
    match ensure_piece_size(piece_size) {
        Err(e) => {
            return Err(e);
        },
        Ok(()) => {},
    }
    if written.0 == 0 {
        return Err(PieceError::EmptySource);
    }
    let n = written.unpadded();
    if n.0 != piece_size.0 {
        return Err(PieceError::SizeMismatch { expected: piece_size.0, actual: n.0 });
    }
    match PieceInfo::new(commitment, n) {
        Err(e) => Err(e),
        Ok(info) => Ok((info, piece_size)),
    }
}

/// Bit-pads the bytes of a piece for writing into a sector.
///
/// The piece size must be valid, `source` must not be empty, and it must hold exactly
/// `piece_size` bytes; its padding must fit in memory. Returns the padded bytes, over which the piece's commitment is
/// computed.
pub fn preprocess_piece(source: &[u8], piece_size: UnpaddedBytesAmount) -> (r: Result<
    Vec<u8>,
    PieceError,
>)
    requires
        spec_padded(source@.len()) <= usize::MAX,
    ensures
        piece_size_error(piece_size.0) is Some ==> r == Err::<Vec<u8>, PieceError>(
            piece_size_error(piece_size.0).unwrap(),
        ),
        piece_size_error(piece_size.0) is None && source@.len() == 0 ==> r == Err::<
            Vec<u8>,
            PieceError,
        >(PieceError::EmptySource),
        piece_size_error(piece_size.0) is None && source@.len() != 0 && source@.len()
            != piece_size.0 ==> r == Err::<Vec<u8>, PieceError>(
            PieceError::SizeMismatch { expected: piece_size.0, actual: source@.len() as u64 },
        ),
        r is Ok <==> piece_size_error(piece_size.0) is None && source@.len() == piece_size.0,
        r is Ok ==> r->Ok_0@ == spec_pad(source@),
{
    match ensure_piece_size(piece_size) {
        Err(e) => {
            return Err(e);
        },
        Ok(()) => {},
    }
    if source.len() == 0 {
        return Err(PieceError::EmptySource);
    }
    if source.len() as u64 != piece_size.0 {
        return Err(PieceError::SizeMismatch { expected: piece_size.0, actual: source.len() as u64 });
    }
    Ok(pad(source))
}

} // verus!
