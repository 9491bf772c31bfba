//! Archive header and metadata structures.

use eck::metadatas::{ArchiveHeader, FileEntry, FolderMetadata, MetaDatas, MAGIC};
use eck::types::{CompressionType, KeyType};
use eck::VERSION;

#[test]
fn header_magic_bytes() {
    let header = ArchiveHeader::new(false, 0);

    assert_eq!(header.magic, MAGIC);
}

#[test]
fn metadata_serialization_with_version_field() {
    let header = ArchiveHeader::new(false, 0);

    assert_eq!(header.version, VERSION);
}

#[test]
fn magic_spells_enk1() {
    assert_eq!(&MAGIC, b"ENK1");
}

#[test]
fn header_keeps_kind_and_metadata_length() {
    let header = ArchiveHeader::new(true, 1234);
    assert!(header.is_folder_archive);
    assert_eq!(header.meta_len, 1234);
    assert_eq!(header.version, 3);
}

#[test]
fn metadatas_new_keeps_fields() {
    let nonce = [7u8; 24];
    let meta = MetaDatas::new(KeyType::Pwd256([9u8; 16]), CompressionType::Lz4, nonce);
    assert_eq!(meta.key_type, KeyType::Pwd256([9u8; 16]));
    assert_eq!(meta.compression, CompressionType::Lz4);
    assert_eq!(meta.nonce, nonce);
}

#[test]
fn folder_metadata_starts_empty() {
    let meta = FolderMetadata::new(KeyType::FromFile);
    assert_eq!(meta.key_type, KeyType::FromFile);
    assert!(meta.entries.is_empty());
}

fn entry(compression: CompressionType) -> FileEntry {
    FileEntry {
        relative_path: "sub/dir/a.txt".to_string(),
        offset: 42,
        permissions: Some(0o644),
        compression,
        file_nonce: [0xAA; 24],
    }
}

#[test]
fn file_entry_equality_ignores_compression() {
    assert!(entry(CompressionType::Lz4) == entry(CompressionType::Zstd));
}

#[test]
fn file_entry_equality_compares_path_offset_permissions_and_nonce() {
    let base = entry(CompressionType::Lz4);
    let mut other = entry(CompressionType::Lz4);
    other.relative_path = "other.txt".to_string();
    assert!(base != other);
    let mut other = entry(CompressionType::Lz4);
    other.offset = 43;
    assert!(base != other);
    let mut other = entry(CompressionType::Lz4);
    other.permissions = None;
    assert!(base != other);
    let mut other = entry(CompressionType::Lz4);
    other.file_nonce[23] = 0;
    assert!(base != other);
}
