use filecoin_proofs::bytes_amount::{UnpaddedByteIndex, UnpaddedBytesAmount};
use filecoin_proofs::fr32::{pad, unpad};
use filecoin_proofs::pieces::{preprocess_piece, PieceError};
use filecoin_proofs::unseal::{unsealed_bytes, UnsealError};

#[test]
fn pad_all_ones_clears_two_bits_per_node() {
    let padded = pad(&[0xFF; 127]);
    assert_eq!(padded.len(), 128);
    for node in padded.chunks(32) {
        assert_eq!(&node[..31], &[0xFF; 31][..]);
        assert_eq!(node[31], 0x3F);
    }
}

#[test]
fn pad_carries_bits_into_the_next_node() {
    let padded = pad(&[0xFF; 32]);
    assert_eq!(padded.len(), 33);
    assert_eq!(&padded[..31], &[0xFF; 31][..]);
    assert_eq!(padded[31], 0x3F);
    assert_eq!(padded[32], 0x03);
    assert_eq!(pad(&[0xAB]), vec![0xAB]);
    assert_eq!(pad(&[]), Vec::<u8>::new());
}

#[test]
fn pad_then_unpad_gives_data_back() {
    for len in [0usize, 1, 31, 32, 33, 127, 254, 300, 1016] {
        let data: Vec<u8> = (0..len).map(|i| (i * 37 + 11) as u8).collect();
        let padded = pad(&data);
        assert_eq!(unpad(&padded, len), data);
    }
}

#[test]
fn unseal_reads_pieces_back() {
    let first: Vec<u8> = (0..127u32).map(|i| (i * 3) as u8).collect();
    let second: Vec<u8> = (0..254u32).map(|i| (255 - i) as u8).collect();
    let mut sector = pad(&first);
    sector.extend(pad(&second));
    sector.resize(2048, 0);
    let comm_d = [1u8; 32];
    let a = unsealed_bytes(&sector, &comm_d, UnpaddedByteIndex(0), UnpaddedBytesAmount(127)).unwrap();
    assert_eq!(a, first);
    let b = unsealed_bytes(&sector, &comm_d, UnpaddedByteIndex(127), UnpaddedBytesAmount(254)).unwrap();
    assert_eq!(b, second);
    let both =
        unsealed_bytes(&sector, &comm_d, UnpaddedByteIndex(0), UnpaddedBytesAmount(381)).unwrap();
    assert_eq!(&both[..127], &first[..]);
    assert_eq!(&both[127..], &second[..]);
    assert_eq!(
        unsealed_bytes(&sector, &[0u8; 32], UnpaddedByteIndex(0), UnpaddedBytesAmount(127)),
        Err(UnsealError::ZeroCommitment)
    );
    assert!(matches!(
        unsealed_bytes(&sector, &comm_d, UnpaddedByteIndex(0), UnpaddedBytesAmount(4000)),
        Err(UnsealError::RangeOutOfBounds { .. })
    ));
}

#[test]
fn preprocess_piece_pads_whole_pieces() {
    let piece = vec![0xFFu8; 127];
    let padded = preprocess_piece(&piece, UnpaddedBytesAmount(127)).unwrap();
    assert_eq!(padded.len(), 128);
    assert_eq!(padded[31], 0x3F);
    assert_eq!(padded, pad(&piece));
    assert_eq!(
        preprocess_piece(&piece, UnpaddedBytesAmount(254)),
        Err(PieceError::SizeMismatch { expected: 254, actual: 127 })
    );
    assert_eq!(preprocess_piece(&[], UnpaddedBytesAmount(127)), Err(PieceError::EmptySource));
    assert_eq!(
        preprocess_piece(&piece, UnpaddedBytesAmount(120)),
        Err(PieceError::TooSmall { size: 120 })
    );
}
