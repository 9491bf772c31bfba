//! The structures written at the head of every archive.
use vstd::prelude::*;
use crate::types::{CompressionType, KeyType, Version};
use crate::VERSION;

verus! {

/// Magic number that opens the header of every archive: `ENK1`.
pub const MAGIC: [u8; 4] = [0x45, 0x4E, 0x4B, 0x31];

/// Metadata of a single encrypted file.
#[derive(Debug, Clone)]
pub struct MetaDatas {
    pub key_type: KeyType,
    pub compression: CompressionType,
    pub nonce: [u8; 24],
}

impl MetaDatas {
    /// Metadata of a file encrypted with this key type, compression and
    /// master nonce.
    pub fn new(key_type: KeyType, compression: CompressionType, nonce: [u8; 24]) -> (res: Self)
        ensures
            res.key_type == key_type,
            res.compression == compression,
            res.nonce == nonce,
    {
        MetaDatas { key_type, compression, nonce }
    }
}

/// Header of an archive: magic number, version, whether it holds a folder,
/// and the length of the metadata that follows.
#[derive(Debug, Clone, Copy, PartialEq, Eq)]
pub struct ArchiveHeader {
    pub magic: [u8; 4],
    pub version: Version,
    pub is_folder_archive: bool,
    pub meta_len: u32,
}

impl ArchiveHeader {
    /// A header of the current version for an archive of the given kind.
    pub fn new(is_folder_archive: bool, meta_len: u32) -> (res: Self)
        ensures
            res.magic == MAGIC,
            res.version == VERSION,
            res.is_folder_archive == is_folder_archive,
            res.meta_len == meta_len,
    {
        ArchiveHeader { magic: MAGIC, version: VERSION, is_folder_archive, meta_len }
    }
}

/// One file stored in a folder archive.
#[derive(Debug, Clone)]
pub struct FileEntry {
    pub relative_path: String,
    pub offset: u64,
    pub permissions: Option<u32>,
    pub compression: CompressionType,
    pub file_nonce: [u8; 24],
}

impl FileEntry {
    /// Two entries are the same when path, offset, permissions and nonce
    /// agree; the compression is not compared.
    pub open spec fn same_entry(&self, other: &FileEntry) -> bool {
        &&& self.relative_path@ == other.relative_path@
        &&& self.offset == other.offset
        &&& self.permissions == other.permissions
        &&& self.file_nonce@ == other.file_nonce@
    }
}

impl PartialEq for FileEntry {
    fn eq(&self, other: &Self) -> (res: bool) {
        let mut same_nonce = true;
        let mut i: usize = 0;
        while i < 24
            invariant
                0 <= i <= 24,
                same_nonce <==> (forall|j: int| 0 <= j < i ==> self.file_nonce@[j] == other.file_nonce@[j]),
            decreases 24 - i,
        {
            same_nonce = same_nonce && self.file_nonce[i] == other.file_nonce[i];
            i = i + 1;
        }
        proof {
            if same_nonce {
                assert(self.file_nonce@ =~= other.file_nonce@);
            }
        }
        let same_permissions = match (self.permissions, other.permissions) {
            (Some(a), Some(b)) => a == b,
            (None, None) => true,
            _ => false,
        };
        self.relative_path == other.relative_path && self.offset == other.offset && same_permissions
            && same_nonce
    }
}

impl vstd::std_specs::cmp::PartialEqSpecImpl for FileEntry {
    open spec fn obeys_eq_spec() -> bool {
        true
    }

    open spec fn eq_spec(&self, other: &FileEntry) -> bool {
        self.same_entry(other)
    }
}

impl Eq for FileEntry {}

/// Metadata of a folder archive: its key type and its entries.
#[derive(Debug, Clone)]
pub struct FolderMetadata {
    pub key_type: KeyType,
    pub entries: Vec<FileEntry>,
}

impl FolderMetadata {
    /// Metadata with the given key type and no entry yet.
    pub fn new(key_type: KeyType) -> (res: Self)
        ensures
            res.key_type == key_type,
            res.entries@.len() == 0,
    {
        FolderMetadata { key_type, entries: Vec::new() }
    }
}

} // verus!
