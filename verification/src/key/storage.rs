//! The textual form of stored keys, and the names they are stored under.
use vstd::prelude::*;
use crate::errors::EnkryptitError;
use crate::text::{hex_decode, hex_encode, lemma_hex_roundtrip, lemma_hex_text_is_ascii, spec_hex_decode, spec_hex_lower};

verus! {

/// Service name under which keys live in the OS credential store.
pub open spec fn service_name() -> Seq<char> {
    "ENKRYPTIT"@
}

/// Service name under which keys live in the OS credential store.
pub fn service() -> (res: String)
    ensures
        res@ == service_name(),
{
    String::from_str("ENKRYPTIT")
}

/// User name under which the key of an object lives in the OS credential
/// store.
pub fn keyring_user(filename: &str) -> (res: String)
    ensures
        res@ == "enkryptit"@ + filename@,
{
    let mut s = String::from_str("enkryptit");
    s.append(filename);
    s
}

/// Text stored for a key: lowercase hexadecimal.
pub fn key_to_hex(key: &[u8; 32]) -> (res: String)
    ensures
        res@ == spec_hex_lower(key@),
{
    hex_encode(key)
}

/// The key denoted by stored text given as bytes.
pub open spec fn spec_key_from_hex(text: Seq<u8>) -> Result<Seq<u8>, EnkryptitError> {
    match spec_hex_decode(text) {
        None => Err(EnkryptitError::HexError),
        Some(bytes) => if bytes.len() == 32 {
            Ok(bytes)
        } else {
            Err(EnkryptitError::InvalidKeyLength)
        },
    }
}

/// Reads a stored key: hexadecimal text that must denote exactly 32
/// bytes.
pub fn key_from_hex(text: &[u8]) -> (res: Result<[u8; 32], EnkryptitError>)
    ensures
        spec_key_from_hex(text@) is Ok <==> res is Ok,
        res matches Ok(key) ==> Ok::<Seq<u8>, EnkryptitError>(key@) == spec_key_from_hex(text@),
        res matches Err(e) ==> Err::<Seq<u8>, EnkryptitError>(e) == spec_key_from_hex(text@),
{
    let bytes = match hex_decode(text) {
        Ok(b) => b,
        Err(_) => return Err(EnkryptitError::HexError),
    };
    if bytes.len() != 32 {
        return Err(EnkryptitError::InvalidKeyLength);
    }
    let mut key = [0u8; 32];
    let mut i: usize = 0;
    while i < 32
        invariant
            bytes@.len() == 32,
            0 <= i <= 32,
            forall|j: int| 0 <= j < i ==> key@[j] == bytes@[j],
        decreases 32 - i,
    {
        key.set(i, bytes[i]);
        i = i + 1;
    }
    assert(key@ =~= bytes@);
    Ok(key)
}

/// A stored key reads back as the key that was stored: the UTF-8 bytes of
/// the text written for a key decode to that very key.
pub proof fn lemma_stored_key_roundtrip(key: [u8; 32])
    ensures
        spec_key_from_hex(vstd::utf8::encode_utf8(spec_hex_lower(key@))) == Ok::<Seq<u8>, EnkryptitError>(key@),
{
    lemma_hex_text_is_ascii(key@);
    lemma_hex_roundtrip(key@);
}

/// The characters of an optional text.
pub open spec fn text_view(t: Option<&str>) -> Option<Seq<char>> {
    match t {
        Some(s) => Some(s@),
        None => None,
    }
}

/// Name of the key file of an object with the given extension, stem and
/// name: `enkryptit_` and the stem of an archive (`.encky`), or the whole
/// name of any other object; `None` without the part it needs.
pub open spec fn spec_key_file_name(extension: Option<Seq<char>>, stem: Option<Seq<char>>, name: Option<Seq<char>>) -> Option<Seq<char>> {
    let base = if extension == Some("encky"@) { stem } else { name };
    match base {
        Some(b) => Some("enkryptit_"@ + b),
        None => None,
    }
}

/// An archive and the plain object it restores share one key file: the
/// archive, named `name.encky`, has extension `encky` and stem `name`, and
/// its key file is the one of the object named `name` (whose extension is
/// not `encky`).
pub proof fn lemma_archive_shares_key_file(name: Seq<char>, extension: Option<Seq<char>>, stem: Option<Seq<char>>)
    requires
        extension != Some("encky"@),
    ensures
        spec_key_file_name(Some("encky"@), Some(name), Some(name + ".encky"@)) == spec_key_file_name(
            extension,
            stem,
            Some(name),
        ),
{
}

/// Name of the key file of an object, from the extension, stem and name of
/// its path: the stem of an archive (`.encky`), the whole name otherwise,
/// prefixed with `enkryptit_`.
pub fn key_file_name(extension: Option<&str>, stem: Option<&str>, name: Option<&str>) -> (res: Result<String, EnkryptitError>)
    ensures
        match spec_key_file_name(text_view(extension), text_view(stem), text_view(name)) {
            Some(f) => res matches Ok(s) && s@ == f,
            None => res == Err::<String, EnkryptitError>(EnkryptitError::FileError),
        },
{
    let is_archive = match extension {
        Some(e) => crate::text::same_text(e, "encky"),
        None => false,
    };
    let base = if is_archive { stem } else { name };
    match base {
        Some(b) => {
            let mut s = String::from_str("enkryptit_");
            s.append(b);
            Ok(s)
        },
        None => Err(EnkryptitError::FileError),
    }
}

} // verus!
