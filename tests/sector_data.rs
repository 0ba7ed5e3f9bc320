use filecoin_proofs::data::{Data, DataError};
use memmap2::MmapMut;

#[test]
fn in_memory_data() {
    let d = Data::from_bytes(vec![1, 2, 3]);
    assert_eq!(d.len(), 3);
    assert!(!d.is_empty());
    assert!(d.is_present());
    assert_eq!(d.bytes().unwrap(), &[1, 2, 3]);
    assert!(matches!(d.pending_restore(), Ok(None)));
}

#[test]
fn empty_data_cannot_be_restored() {
    let mut d = Data::empty();
    assert!(d.is_empty());
    assert!(matches!(d.bytes(), Err(DataError::Absent)));
    assert!(matches!(d.pending_restore(), Err(DataError::MissingPath)));
    let map = MmapMut::map_anon(8).unwrap();
    assert!(matches!(d.restore(map), Err(DataError::MissingPath)));
    assert!(!d.is_present());
}

#[test]
fn data_dropped_and_restored() {
    let mut d = Data::new(vec![5; 16], "/sector".to_string());
    assert!(d.drop_data().is_ok());
    assert!(!d.is_present());
    assert_eq!(d.len(), 16);
    assert!(matches!(d.bytes(), Err(DataError::Absent)));
    assert_eq!(d.pending_restore().unwrap(), Some("/sector".to_string()));
    let map = MmapMut::map_anon(32).unwrap();
    assert!(d.restore(map).is_ok());
    assert!(d.is_present());
    assert_eq!(d.len(), 32);
    assert_eq!(d.bytes().unwrap().len(), 32);
    // restoring present data changes nothing
    let other = MmapMut::map_anon(4).unwrap();
    assert!(d.restore(other).is_ok());
    assert_eq!(d.len(), 32);
}

#[test]
fn data_without_path_is_kept_on_drop() {
    let mut d = Data::from_bytes(vec![9; 4]);
    assert!(d.drop_data().is_ok());
    assert!(d.is_present());
    assert_eq!(d.bytes().unwrap(), &[9, 9, 9, 9]);
}

#[test]
fn restore_of_len_checks_length() {
    let mut d = Data::from_path("/sector".to_string());
    assert_eq!(d.len(), 0);
    assert!(!d.is_present());
    let map = MmapMut::map_anon(16).unwrap();
    match d.restore_of_len(map, 8) {
        Err(DataError::LengthMismatch { expected, actual }) => {
            assert_eq!(expected, 8);
            assert_eq!(actual, 16);
        }
        other => panic!("unexpected result {:?}", other),
    }
    assert!(!d.is_present());
    let map = MmapMut::map_anon(16).unwrap();
    assert!(d.restore_of_len(map, 16).is_ok());
    assert_eq!(d.len(), 16);
}

#[test]
fn mapped_data_reads_its_map() {
    let mut map = MmapMut::map_anon(4).unwrap();
    map.copy_from_slice(&[1, 2, 3, 4]);
    let d = Data::from_mmap(map, "/m".to_string());
    assert_eq!(d.len(), 4);
    assert_eq!(d.bytes().unwrap(), &[1, 2, 3, 4]);
}

#[test]
fn writes_go_to_the_bytes() {
    let mut d = Data::from_bytes(vec![0; 4]);
    d.bytes_mut()[2] = 7;
    assert_eq!(d.bytes().unwrap(), &[0, 0, 7, 0]);
    let map = MmapMut::map_anon(3).unwrap();
    let mut m = Data::from_mmap(map, "/m".to_string());
    m.bytes_mut().copy_from_slice(&[4, 5, 6]);
    assert_eq!(m.bytes().unwrap(), &[4, 5, 6]);
    assert_eq!(m.len(), 3);
}
