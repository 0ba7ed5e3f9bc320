use filecoin_proofs::bytes_amount::{
    is_power_of_two, padded_len, unpadded_len, PaddedBytesAmount, UnpaddedByteIndex,
    UnpaddedBytesAmount,
};
use filecoin_proofs::pieces::{
    ensure_piece_size, is_zero, write_and_preprocess, PieceError, PieceInfo,
};
use filecoin_proofs::unseal::{unseal_range_bounds, UnsealError};

#[test]
fn padding_conversions() {
    assert_eq!(padded_len(127), 128);
    assert_eq!(padded_len(254), 256);
    assert_eq!(padded_len(1), 1);
    assert_eq!(padded_len(32), 33);
    assert_eq!(padded_len(2032), 2048);
    assert_eq!(unpadded_len(128), 127);
    assert_eq!(unpadded_len(2048), 2032);
    assert_eq!(unpadded_len(33), 32);
    assert_eq!(UnpaddedBytesAmount(508).padded(), PaddedBytesAmount(512));
    assert_eq!(PaddedBytesAmount(1 << 35).unpadded(), UnpaddedBytesAmount((1u64 << 35) / 128 * 127));
}

#[test]
fn padding_round_trip_on_values() {
    for n in 0u64..5000 {
        let p = padded_len(n);
        assert!(p >= n as u128);
        assert_eq!(unpadded_len(p as u64), n);
    }
    let big = u64::MAX / 2;
    assert_eq!(unpadded_len(padded_len(big) as u64), big);
}

#[test]
fn powers_of_two() {
    assert!(is_power_of_two(1));
    assert!(is_power_of_two(128));
    assert!(is_power_of_two(1u128 << 64));
    assert!(!is_power_of_two(0));
    assert!(!is_power_of_two(96));
}

#[test]
fn piece_sizes() {
    assert_eq!(ensure_piece_size(UnpaddedBytesAmount(127)), Ok(()));
    assert_eq!(ensure_piece_size(UnpaddedBytesAmount(254)), Ok(()));
    assert_eq!(ensure_piece_size(UnpaddedBytesAmount(2032)), Ok(()));
    assert_eq!(
        ensure_piece_size(UnpaddedBytesAmount(126)),
        Err(PieceError::TooSmall { size: 126 })
    );
    assert_eq!(
        ensure_piece_size(UnpaddedBytesAmount(128)),
        Err(PieceError::NotPowerOfTwo { size: 128 })
    );
    assert_eq!(
        ensure_piece_size(UnpaddedBytesAmount(200)),
        Err(PieceError::NotPowerOfTwo { size: 200 })
    );
    // 127 * 2^57 pads to 2^64, past the range of a u64
    assert_eq!(ensure_piece_size(UnpaddedBytesAmount(127 << 57)), Ok(()));
}

#[test]
fn piece_info_checks() {
    assert!(is_zero(&[0u8; 32]));
    let mut c = [0u8; 32];
    c[31] = 1;
    assert!(!is_zero(&c));
    let info = PieceInfo::new(c, UnpaddedBytesAmount(508)).unwrap();
    assert_eq!(info.commitment, c);
    assert_eq!(info.size, UnpaddedBytesAmount(508));
    assert_eq!(PieceInfo::new([0u8; 32], UnpaddedBytesAmount(508)), Err(PieceError::ZeroCommitment));
    assert_eq!(PieceInfo::new(c, UnpaddedBytesAmount(100)), Err(PieceError::TooSmall { size: 100 }));
}

#[test]
fn write_and_preprocess_accounting() {
    let comm = [7u8; 32];
    let (info, written) =
        write_and_preprocess(UnpaddedBytesAmount(127), PaddedBytesAmount(128), comm).unwrap();
    assert_eq!(info.commitment, comm);
    assert_eq!(info.size, UnpaddedBytesAmount(127));
    assert_eq!(written, UnpaddedBytesAmount(127));

    let (info, written) =
        write_and_preprocess(UnpaddedBytesAmount(1016), PaddedBytesAmount(1024), comm).unwrap();
    assert_eq!(info.size, UnpaddedBytesAmount(1016));
    assert_eq!(written, UnpaddedBytesAmount(1016));

    assert_eq!(
        write_and_preprocess(UnpaddedBytesAmount(127), PaddedBytesAmount(0), comm),
        Err(PieceError::EmptySource)
    );
    assert_eq!(
        write_and_preprocess(UnpaddedBytesAmount(254), PaddedBytesAmount(128), comm),
        Err(PieceError::SizeMismatch { expected: 254, actual: 127 })
    );
    assert_eq!(
        write_and_preprocess(UnpaddedBytesAmount(127), PaddedBytesAmount(128), [0u8; 32]),
        Err(PieceError::ZeroCommitment)
    );
    assert_eq!(
        write_and_preprocess(UnpaddedBytesAmount(100), PaddedBytesAmount(128), comm),
        Err(PieceError::TooSmall { size: 100 })
    );
}

#[test]
fn unseal_bounds() {
    let comm_d = [9u8; 32];
    assert_eq!(
        unseal_range_bounds(&comm_d, UnpaddedByteIndex(0), UnpaddedBytesAmount(127), 2048),
        Ok((0, 128))
    );
    assert_eq!(
        unseal_range_bounds(&comm_d, UnpaddedByteIndex(127), UnpaddedBytesAmount(254), 2048),
        Ok((128, 384))
    );
    assert_eq!(
        unseal_range_bounds(&comm_d, UnpaddedByteIndex(0), UnpaddedBytesAmount(2032), 2048),
        Ok((0, 2048))
    );
    assert_eq!(
        unseal_range_bounds(&comm_d, UnpaddedByteIndex(127), UnpaddedBytesAmount(2032), 2048),
        Err(UnsealError::RangeOutOfBounds { offset: 127, num_bytes: 2032, sector_len: 2048 })
    );
    assert_eq!(
        unseal_range_bounds(&[0u8; 32], UnpaddedByteIndex(0), UnpaddedBytesAmount(127), 2048),
        Err(UnsealError::ZeroCommitment)
    );
}
