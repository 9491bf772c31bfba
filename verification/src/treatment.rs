//! Recognising archives: the framing of the first bytes of a file, and the
//! choice of what to do with an object.
use vstd::prelude::*;
use crate::errors::EnkryptitError;
use crate::metadatas::{ArchiveHeader, MAGIC};
use crate::parameters::EnkryptitParams;
use crate::types::{key_type_for, KeyType};
use crate::VERSION;

verus! {

/// Longest header length that a file may announce.
pub const MAX_HEADER_LEN: usize = 1024;

/// What reading the head of a file found.
#[derive(Debug)]
pub enum ParsedFile {
    /// An archive of Enkryptit!: its metadata bytes, version, where the
    /// payload starts, and whether it holds a folder.
    Enkryptit { meta: Vec<u8>, version: u8, payload_offset: u64, is_folder_archive: bool },
    /// Anything else.
    Plain,
}

/// Where the metadata of an archive lies, once its header is known.
#[derive(Debug, Clone, Copy, PartialEq, Eq, Structural)]
pub enum MetaLocation {
    /// The file is not an archive.
    Plain,
    /// The file claims to be an archive but cannot hold its metadata.
    Corrupted,
    /// The metadata is `len` bytes from byte `start`.
    At { start: u64, len: u64, version: u8, is_folder_archive: bool, payload_offset: u64 },
}

/// The header length announced by the first byte of a file, when it is
/// one that an archive may have.
pub open spec fn spec_header_length(first: Option<u8>) -> Option<usize> {
    match first {
        Some(b) => if 1 <= b && b <= MAX_HEADER_LEN { Some(b as usize) } else { None },
        None => None,
    }
}

/// Where an archive with this header keeps its metadata: at the end of the
/// file for folder archives from version 2 on, right after the header
/// otherwise. The payload offset counts the length byte, the header and
/// the metadata.
pub open spec fn spec_locate_metadata(file_len: u64, header_len: usize, header: Option<ArchiveHeader>) -> MetaLocation {
    if header_len < 1 || header_len > MAX_HEADER_LEN {
        MetaLocation::Plain
    } else {
    match header {
        None => MetaLocation::Plain,
        Some(h) => {
            if h.magic@ != MAGIC@ {
                MetaLocation::Plain
            } else {
                let payload_offset = (1 + header_len + h.meta_len) as u64;
                if h.is_folder_archive && h.version >= 2 {
                    if file_len < h.meta_len {
                        MetaLocation::Corrupted
                    } else {
                        MetaLocation::At {
                            start: (file_len - h.meta_len) as u64,
                            len: h.meta_len as u64,
                            version: h.version,
                            is_folder_archive: true,
                            payload_offset,
                        }
                    }
                } else {
                    MetaLocation::At {
                        start: (1 + header_len) as u64,
                        len: h.meta_len as u64,
                        version: h.version,
                        is_folder_archive: h.is_folder_archive,
                        payload_offset,
                    }
                }
            }
        },
    }
    }
}

/// The header length announced by the first byte of a file: `None` when
/// the file is empty or the byte is zero.
pub fn header_length(first: Option<u8>) -> (res: Option<usize>)
    ensures
        res == spec_header_length(first),
{
    match first {
        Some(b) => if 1 <= b && (b as usize) <= MAX_HEADER_LEN { Some(b as usize) } else { None },
        None => None,
    }
}

/// Whether four bytes are the magic number.
pub fn is_magic(magic: &[u8; 4]) -> (res: bool)
    ensures
        res == (magic@ == MAGIC@),
{
    let same = magic[0] == MAGIC[0] && magic[1] == MAGIC[1] && magic[2] == MAGIC[2] && magic[3] == MAGIC[3];
    proof {
        if same {
            assert(magic@ =~= MAGIC@);
        }
    }
    same
}

/// Where the metadata lies, given the length of the file, the announced
/// header length and the decoded header (`None` when the header could not
/// be read or decoded); a header length that no archive has means a plain
/// file.
pub fn locate_metadata(file_len: u64, header_len: usize, header: Option<ArchiveHeader>) -> (res: MetaLocation)
    ensures
        res == spec_locate_metadata(file_len, header_len, header),
{
    if header_len < 1 || header_len > MAX_HEADER_LEN {
        return MetaLocation::Plain;
    }
    match header {
        None => MetaLocation::Plain,
        Some(h) => {
            if !is_magic(&h.magic) {
                return MetaLocation::Plain;
            }
            let meta_len = h.meta_len as u64;
            let payload_offset = 1 + header_len as u64 + meta_len;
            if h.is_folder_archive && h.version >= 2 {
                if file_len < meta_len {
                    MetaLocation::Corrupted
                } else {
                    MetaLocation::At {
                        start: file_len - meta_len,
                        len: meta_len,
                        version: h.version,
                        is_folder_archive: true,
                        payload_offset,
                    }
                }
            } else {
                MetaLocation::At {
                    start: 1 + header_len as u64,
                    len: meta_len,
                    version: h.version,
                    is_folder_archive: h.is_folder_archive,
                    payload_offset,
                }
            }
        },
    }
}

/// The outcome of reading a file, once the metadata has been read where
/// `location` says (`meta` is `None` when that read failed).
pub fn finish_parse(location: MetaLocation, meta: Option<Vec<u8>>) -> (res: Result<ParsedFile, EnkryptitError>)
    ensures
        location is Plain ==> res matches Ok(ParsedFile::Plain),
        location is Corrupted ==> res == Err::<ParsedFile, EnkryptitError>(EnkryptitError::CorruptedFile),
        location is At && meta is None ==> res == Err::<ParsedFile, EnkryptitError>(EnkryptitError::CorruptedFile),
        location is At && meta is Some ==> (res matches Ok(ParsedFile::Enkryptit { meta: m, version, payload_offset, is_folder_archive })
            && m@ == meta->0@ && version == location->version && payload_offset == location->payload_offset
            && is_folder_archive == location->is_folder_archive),
{
    match location {
        MetaLocation::Plain => Ok(ParsedFile::Plain),
        MetaLocation::Corrupted => Err(EnkryptitError::CorruptedFile),
        MetaLocation::At { start: _, len: _, version, is_folder_archive, payload_offset } => match meta {
            Some(m) => Ok(ParsedFile::Enkryptit { meta: m, version, payload_offset, is_folder_archive }),
            None => Err(EnkryptitError::CorruptedFile),
        },
    }
}

/// What treating an object does.
#[derive(Debug)]
pub enum Treatment {
    /// Pack and encrypt a folder, with a key of this type.
    EncryptFolder { keytype: KeyType },
    /// Encrypt a plain file, with a key of this type.
    EncryptFile { keytype: KeyType },
    /// Decrypt a folder archive.
    DecryptFolder { meta: Vec<u8>, payload_offset: u64, version: u8 },
    /// Decrypt a file archive.
    DecryptFile { meta: Vec<u8>, payload_offset: u64 },
    /// The object could not be read or is a damaged archive.
    CorruptedFile,
}

/// What to do with an object, from the parameters, whether it is a
/// folder, and what reading its head found: folders are encrypted;
/// archives are decrypted (as folders or files, as their header says);
/// other files are encrypted; files that cannot be read are reported as
/// corrupted. Encryption uses the key type the parameters name.
pub fn treat_object(parameters: &EnkryptitParams, is_dir: bool, parsed: Result<ParsedFile, EnkryptitError>) -> (res: Treatment)
    ensures
        is_dir ==> res == (Treatment::EncryptFolder { keytype: key_type_for(parameters.key_params) }),
        !is_dir ==> match parsed {
            Ok(ParsedFile::Plain) => res == (Treatment::EncryptFile { keytype: key_type_for(parameters.key_params) }),
            Ok(ParsedFile::Enkryptit { meta, version, payload_offset, is_folder_archive }) => if is_folder_archive {
                res matches Treatment::DecryptFolder { meta: m, payload_offset: p, version: v } && m@ == meta@
                    && p == payload_offset && v == version
            } else {
                res matches Treatment::DecryptFile { meta: m, payload_offset: p } && m@ == meta@ && p
                    == payload_offset
            },
            Err(_) => res is CorruptedFile,
        },
{
    let keytype = parameters.key_params.to_type();
    if is_dir {
        return Treatment::EncryptFolder { keytype };
    }
    match parsed {
        Ok(ParsedFile::Enkryptit { meta, version, payload_offset, is_folder_archive }) => {
            if is_folder_archive {
                Treatment::DecryptFolder { meta, payload_offset, version }
            } else {
                Treatment::DecryptFile { meta, payload_offset }
            }
        },
        Ok(ParsedFile::Plain) => Treatment::EncryptFile { keytype },
        Err(_) => Treatment::CorruptedFile,
    }
}

/// One report that inspecting an object shows.
#[derive(Debug)]
pub enum Inspection {
    /// The report of a plain folder.
    PlainFolder,
    /// The report of a plain file.
    PlainFile,
    /// The report of a file archive, from its metadata and version.
    EncryptedFile { meta: Vec<u8>, version: u8 },
    /// The report of a folder archive, from its metadata and version.
    EncryptedArchive { meta: Vec<u8>, version: u8 },
    /// Reading the object failed with this error.
    Failed(EnkryptitError),
}

/// The report that matches what reading the head of an object found.
pub open spec fn inspection_for(parsed: Result<ParsedFile, EnkryptitError>, res: Inspection) -> bool {
    match parsed {
        Ok(ParsedFile::Plain) => res is PlainFile,
        Ok(ParsedFile::Enkryptit { meta, version, payload_offset: _, is_folder_archive }) => if is_folder_archive {
            res matches Inspection::EncryptedArchive { meta: m, version: v } && m@ == meta@ && v == version
        } else {
            res matches Inspection::EncryptedFile { meta: m, version: v } && m@ == meta@ && v == version
        },
        Err(e) => res == Inspection::Failed(e),
    }
}

/// The report that inspecting an object shows: the folder report for a
/// folder; otherwise the report that matches what reading its head found
/// (archive, plain file, or the error).
pub fn inspect_object(is_dir: bool, parsed: Result<ParsedFile, EnkryptitError>) -> (res: Inspection)
    ensures
        is_dir ==> res is PlainFolder,
        !is_dir ==> inspection_for(parsed, res),
{
    if is_dir {
        return Inspection::PlainFolder;
    }
    match parsed {
        Ok(ParsedFile::Enkryptit { meta, version, payload_offset: _, is_folder_archive }) => {
            if is_folder_archive {
                Inspection::EncryptedArchive { meta, version }
            } else {
                Inspection::EncryptedFile { meta, version }
            }
        },
        Ok(ParsedFile::Plain) => Inspection::PlainFile,
        Err(e) => Inspection::Failed(e),
    }
}

/// An archive header written by this version is recognised when read
/// back: a folder archive keeps its metadata in the last `meta_len` bytes
/// of the file, a file archive right after its header, and the payload
/// starts after the length byte, the header and the metadata.
pub proof fn lemma_written_header_recognised(
    is_folder_archive: bool,
    meta_len: u32,
    header_len: usize,
    file_len: u64,
    header: ArchiveHeader,
)
    requires
        header.magic == MAGIC,
        header.version == VERSION,
        header.is_folder_archive == is_folder_archive,
        header.meta_len == meta_len,
        1 <= header_len <= MAX_HEADER_LEN,
        is_folder_archive ==> file_len >= meta_len,
    ensures
        spec_locate_metadata(file_len, header_len, Some(header)) == (MetaLocation::At {
            start: if is_folder_archive { (file_len - meta_len) as u64 } else { (1 + header_len) as u64 },
            len: meta_len as u64,
            version: VERSION,
            is_folder_archive,
            payload_offset: (1 + header_len + meta_len) as u64,
        }),
{
}

/// Where the metadata of an archive lies, for every header: a folder
/// archive of version 2 or later keeps it in its last `meta_len` bytes (and
/// is corrupted when shorter than that); a file archive, and a version-1
/// folder archive, keep it right after the header. The payload starts
/// after the length byte, the header and `meta_len` bytes; a header
/// without the magic number, or a length no archive has, means a plain
/// file.
pub proof fn lemma_metadata_location(file_len: u64, header_len: usize, header: ArchiveHeader)
    ensures
        (header.magic@ != MAGIC@ || header_len < 1 || header_len > MAX_HEADER_LEN) ==> spec_locate_metadata(
            file_len,
            header_len,
            Some(header),
        ) == MetaLocation::Plain,
        header.magic@ == MAGIC@ && 1 <= header_len <= MAX_HEADER_LEN && header.is_folder_archive && header.version >= 2
            && file_len >= header.meta_len ==> spec_locate_metadata(file_len, header_len, Some(header)) == (MetaLocation::At {
            start: (file_len - header.meta_len) as u64,
            len: header.meta_len as u64,
            version: header.version,
            is_folder_archive: true,
            payload_offset: (1 + header_len + header.meta_len) as u64,
        }),
        header.magic@ == MAGIC@ && 1 <= header_len <= MAX_HEADER_LEN && header.is_folder_archive && header.version >= 2
            && file_len < header.meta_len ==> spec_locate_metadata(file_len, header_len, Some(header)) == MetaLocation::Corrupted,
        header.magic@ == MAGIC@ && 1 <= header_len <= MAX_HEADER_LEN && !(header.is_folder_archive && header.version >= 2)
            ==> spec_locate_metadata(file_len, header_len, Some(header)) == (MetaLocation::At {
            start: (1 + header_len) as u64,
            len: header.meta_len as u64,
            version: header.version,
            is_folder_archive: header.is_folder_archive,
            payload_offset: (1 + header_len + header.meta_len) as u64,
        }),
{
}

} // verus!
