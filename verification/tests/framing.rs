//! Recognising archives from their first bytes.

use eck::errors::EnkryptitError;
use eck::metadatas::{ArchiveHeader, MAGIC};
use eck::parameters::EnkryptitParams;
use eck::types::{CompressionType, KeyParams, KeyType, ParallelismType};
use eck::treatment::{
    finish_parse, header_length, inspect_object, is_magic, locate_metadata, treat_object, Inspection,
    MetaLocation, ParsedFile, Treatment,
};

#[test]
fn header_length_bounds() {
    assert_eq!(header_length(None), None);
    assert_eq!(header_length(Some(0)), None);
    assert_eq!(header_length(Some(1)), Some(1));
    assert_eq!(header_length(Some(255)), Some(255));
}

#[test]
fn magic_recognised() {
    assert!(is_magic(&MAGIC));
    assert!(!is_magic(b"ENK2"));
}

#[test]
fn missing_or_foreign_header_is_plain() {
    assert_eq!(locate_metadata(100, 8, None), MetaLocation::Plain);
    let mut h = ArchiveHeader::new(false, 10);
    h.magic = *b"PK\x03\x04";
    assert_eq!(locate_metadata(100, 8, Some(h)), MetaLocation::Plain);
}

#[test]
fn file_archive_metadata_follows_header() {
    let h = ArchiveHeader::new(false, 40);
    assert_eq!(
        locate_metadata(1000, 8, Some(h)),
        MetaLocation::At { start: 9, len: 40, version: 3, is_folder_archive: false, payload_offset: 49 }
    );
}

#[test]
fn folder_archive_metadata_at_end() {
    let h = ArchiveHeader::new(true, 40);
    assert_eq!(
        locate_metadata(1000, 8, Some(h)),
        MetaLocation::At { start: 960, len: 40, version: 3, is_folder_archive: true, payload_offset: 49 }
    );
}

#[test]
fn old_folder_archive_metadata_follows_header() {
    let mut h = ArchiveHeader::new(true, 40);
    h.version = 1;
    assert_eq!(
        locate_metadata(1000, 8, Some(h)),
        MetaLocation::At { start: 9, len: 40, version: 1, is_folder_archive: true, payload_offset: 49 }
    );
}

#[test]
fn folder_archive_shorter_than_metadata_is_corrupted() {
    let h = ArchiveHeader::new(true, 4000);
    assert_eq!(locate_metadata(1000, 8, Some(h)), MetaLocation::Corrupted);
}

#[test]
fn finish_parse_outcomes() {
    assert!(matches!(finish_parse(MetaLocation::Plain, None), Ok(ParsedFile::Plain)));
    assert!(matches!(finish_parse(MetaLocation::Corrupted, None), Err(EnkryptitError::CorruptedFile)));
    let at = MetaLocation::At { start: 9, len: 2, version: 3, is_folder_archive: false, payload_offset: 11 };
    assert!(matches!(finish_parse(at, None), Err(EnkryptitError::CorruptedFile)));
    match finish_parse(at, Some(vec![1, 2])) {
        Ok(ParsedFile::Enkryptit { meta, version, payload_offset, is_folder_archive }) => {
            assert_eq!(meta, vec![1, 2]);
            assert_eq!(version, 3);
            assert_eq!(payload_offset, 11);
            assert!(!is_folder_archive);
        }
        other => panic!("unexpected {other:?}"),
    }
}

fn params(key_params: KeyParams) -> EnkryptitParams {
    EnkryptitParams::new(key_params, CompressionType::NoComp, ParallelismType::Single)
}

#[test]
fn treatment_plans() {
    match treat_object(&params(KeyParams::Os), true, Ok(ParsedFile::Plain)) {
        Treatment::EncryptFolder { keytype } => assert_eq!(keytype, KeyType::FromOS),
        other => panic!("unexpected {other:?}"),
    }
    match treat_object(&params(KeyParams::PassWord), false, Ok(ParsedFile::Plain)) {
        Treatment::EncryptFile { keytype } => assert_eq!(keytype, KeyType::Password),
        other => panic!("unexpected {other:?}"),
    }
    match treat_object(&params(KeyParams::File), false, Ok(ParsedFile::Plain)) {
        Treatment::EncryptFile { keytype } => assert_eq!(keytype, KeyType::FromFile),
        other => panic!("unexpected {other:?}"),
    }
    assert!(matches!(
        treat_object(&params(KeyParams::File), false, Err(EnkryptitError::CorruptedFile)),
        Treatment::CorruptedFile
    ));
    let folder = ParsedFile::Enkryptit { meta: vec![5], version: 2, payload_offset: 20, is_folder_archive: true };
    match treat_object(&params(KeyParams::PassWord), false, Ok(folder)) {
        Treatment::DecryptFolder { meta, payload_offset, version } => {
            assert_eq!(meta, vec![5]);
            assert_eq!(payload_offset, 20);
            assert_eq!(version, 2);
        }
        other => panic!("unexpected {other:?}"),
    }
    let file = ParsedFile::Enkryptit { meta: vec![6], version: 3, payload_offset: 30, is_folder_archive: false };
    match treat_object(&params(KeyParams::PassWord), false, Ok(file)) {
        Treatment::DecryptFile { meta, payload_offset } => {
            assert_eq!(meta, vec![6]);
            assert_eq!(payload_offset, 30);
        }
        other => panic!("unexpected {other:?}"),
    }
}

#[test]
fn inspection_plans() {
    assert!(matches!(inspect_object(false, Ok(ParsedFile::Plain)), Inspection::PlainFile));
    assert!(matches!(inspect_object(true, Ok(ParsedFile::Plain)), Inspection::PlainFolder));
    assert!(matches!(inspect_object(true, Err(EnkryptitError::CorruptedFile)), Inspection::PlainFolder));

    let archive = ParsedFile::Enkryptit { meta: vec![1, 2], version: 3, payload_offset: 9, is_folder_archive: true };
    match inspect_object(false, Ok(archive)) {
        Inspection::EncryptedArchive { meta, version } => {
            assert_eq!(meta, vec![1, 2]);
            assert_eq!(version, 3);
        }
        other => panic!("unexpected {other:?}"),
    }
    let file = ParsedFile::Enkryptit { meta: vec![4], version: 1, payload_offset: 9, is_folder_archive: false };
    match inspect_object(false, Ok(file)) {
        Inspection::EncryptedFile { meta, version } => {
            assert_eq!(meta, vec![4]);
            assert_eq!(version, 1);
        }
        other => panic!("unexpected {other:?}"),
    }
    match inspect_object(false, Err(EnkryptitError::CorruptedFile)) {
        Inspection::Failed(e) => assert_eq!(e, EnkryptitError::CorruptedFile),
        other => panic!("unexpected {other:?}"),
    }
}

#[test]
fn impossible_header_length_is_plain() {
    let h = ArchiveHeader::new(false, 10);
    assert_eq!(locate_metadata(1000, 0, Some(h)), MetaLocation::Plain);
    assert_eq!(locate_metadata(1000, 1025, Some(h)), MetaLocation::Plain);
}
