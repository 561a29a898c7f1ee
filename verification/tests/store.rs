use poseidon_common::{PoseidonError, PoseidonErrorKind, StoreFault};
use sled::{DiskPtr, IVec};

#[test]
fn a_collection_name_that_is_no_text_gives_the_undecodable_marker() {
    let native = sled::Error::CollectionNotFound(IVec::from(vec![0xffu8, 0xfe, 0x00]));
    assert_eq!(PoseidonError::from(native), PoseidonError::InvalidByteToUtf8StringConversion);
}

#[test]
fn a_collection_name_that_is_a_text_is_kept() {
    let native = sled::Error::CollectionNotFound(IVec::from("users"));
    assert_eq!(
        PoseidonError::from(native),
        PoseidonError::SledCollectionNotFound("users".to_string())
    );
}

#[test]
fn a_collection_name_is_not_cut_at_a_bad_byte() {
    let mut name = b"users".to_vec();
    name.push(0x80);
    assert_eq!(
        PoseidonError::from_collection_name(name),
        PoseidonError::InvalidByteToUtf8StringConversion
    );
}

#[test]
fn an_empty_collection_name_is_an_empty_text() {
    assert_eq!(
        PoseidonError::from_collection_name(Vec::new()),
        PoseidonError::SledCollectionNotFound(String::new())
    );
}

#[test]
fn a_collection_name_of_several_bytes_per_character_is_kept() {
    assert_eq!(
        PoseidonError::from_collection_name("größe".as_bytes().to_vec()),
        PoseidonError::SledCollectionNotFound("größe".to_string())
    );
}

#[test]
fn unsupported_and_reportable_bug_keep_their_texts() {
    assert_eq!(
        PoseidonError::from(sled::Error::Unsupported("no merge operator".to_string())),
        PoseidonError::SledUnsupported("no merge operator".to_string())
    );
    assert_eq!(
        PoseidonError::from(sled::Error::ReportableBug("lost a page".to_string())),
        PoseidonError::SledReportableBug("lost a page".to_string())
    );
}

#[test]
fn an_io_failure_of_the_store_goes_to_the_io_category() {
    let inner = std::io::Error::from(std::io::ErrorKind::PermissionDenied);
    assert_eq!(
        PoseidonError::from(sled::Error::Io(inner)),
        PoseidonError::IoErr(PoseidonErrorKind::PermissionDenied)
    );
}

#[test]
fn a_corruption_keeps_the_rendering_of_its_location() {
    let unknown = sled::Error::Corruption { at: None, bt: () };
    assert_eq!(PoseidonError::from(unknown), PoseidonError::SledCorruption("None".to_string()));
    let inline = sled::Error::Corruption { at: Some(DiskPtr::Inline(4096)), bt: () };
    assert_eq!(
        PoseidonError::from(inline),
        PoseidonError::SledCorruption("Some(Inline(4096))".to_string())
    );
    let blob = sled::Error::Corruption { at: Some(DiskPtr::Blob(7, 9)), bt: () };
    assert_eq!(
        PoseidonError::from(blob),
        PoseidonError::SledCorruption("Some(Blob(7, 9))".to_string())
    );
}

#[test]
fn a_fault_in_plain_values_is_translated_like_the_native_error() {
    assert_eq!(
        PoseidonError::from_store_fault(StoreFault::CollectionNotFound(b"logs".to_vec())),
        PoseidonError::SledCollectionNotFound("logs".to_string())
    );
    assert_eq!(
        PoseidonError::from_store_fault(StoreFault::CollectionNotFound(vec![0xc0])),
        PoseidonError::InvalidByteToUtf8StringConversion
    );
    assert_eq!(
        PoseidonError::from_store_fault(StoreFault::Unsupported("x".to_string())),
        PoseidonError::SledUnsupported("x".to_string())
    );
    assert_eq!(
        PoseidonError::from_store_fault(StoreFault::ReportableBug("y".to_string())),
        PoseidonError::SledReportableBug("y".to_string())
    );
    assert_eq!(
        PoseidonError::from_store_fault(StoreFault::Corruption(Some(DiskPtr::Inline(1)))),
        PoseidonError::SledCorruption("Some(Inline(1))".to_string())
    );
    assert_eq!(
        PoseidonError::from_store_fault(StoreFault::Io(std::io::Error::from(
            std::io::ErrorKind::NotFound
        ))),
        PoseidonError::IoErr(PoseidonErrorKind::NotFound)
    );
}

#[test]
fn the_store_errors_have_different_variants() {
    let ranks = vec![
        PoseidonError::from(sled::Error::CollectionNotFound(IVec::from("a"))).rank_value(),
        PoseidonError::from(sled::Error::CollectionNotFound(IVec::from(vec![0xffu8]))).rank_value(),
        PoseidonError::from(sled::Error::Unsupported(String::new())).rank_value(),
        PoseidonError::from(sled::Error::ReportableBug(String::new())).rank_value(),
        PoseidonError::from(sled::Error::Io(std::io::Error::from(std::io::ErrorKind::Other)))
            .rank_value(),
        PoseidonError::from(sled::Error::Corruption { at: None, bt: () }).rank_value(),
    ];
    assert_eq!(ranks, vec![17, 12, 18, 19, 11, 20]);
}
