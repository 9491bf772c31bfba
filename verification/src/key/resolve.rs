//! Choosing the key of an object from its key type and the direction of
//! the treatment.
use vstd::prelude::*;
use crate::errors::EnkryptitError;
use crate::key::derivation::{derive_key, generate_key, key_from_password, password_fits, spec_password_key};
use crate::key::storage::{key_from_hex, lemma_stored_key_roundtrip, spec_key_from_hex};
use crate::text::spec_hex_lower;
use crate::payload::spec_open_payload;
use crate::types::{key_type_for, KeyParams, KeyType, Mode};
use vstd::utf8::encode_utf8;

verus! {

/// Where the key of an object comes from.
#[derive(Debug, Clone, Copy, PartialEq, Eq)]
pub enum KeySource {
    /// A password given now, hashed with a fresh salt (encryption).
    NewPassword,
    /// A password given now, hashed with the salt stored in the archive
    /// (decryption).
    SaltedPassword([u8; 16]),
    /// A key file in the user's private key directory.
    File,
    /// The OS credential store.
    Os,
}

/// Whether an error is the refusal of a key type: the type given, and the
/// one expected.
pub open spec fn is_invalid_key_type(e: EnkryptitError, given: Seq<char>, expected: Seq<char>) -> bool {
    e matches EnkryptitError::InvalidKeyType(g, x) && g@ == given && x@ == expected
}

/// The source of the key, or why the key type cannot be used this way: a
/// bare password is only for encryption, a salted password only for
/// decryption, and an object without key type has no key.
pub open spec fn key_source_ok(mode: Mode, keytype: KeyType) -> Option<KeySource> {
    match keytype {
        KeyType::Password => if mode == Mode::Encrypting { Some(KeySource::NewPassword) } else { None },
        KeyType::FromFile => Some(KeySource::File),
        KeyType::FromOS => Some(KeySource::Os),
        KeyType::Pwd256(salt) => if mode == Mode::Decrypting { Some(KeySource::SaltedPassword(salt)) } else { None },
        KeyType::NoKey => None,
    }
}

/// The refusal given when [`key_source_ok`] is `None`.
pub open spec fn key_source_refusal(e: EnkryptitError, keytype: KeyType) -> bool {
    match keytype {
        KeyType::Password => is_invalid_key_type(e, "Password"@, "Pwd256"@),
        KeyType::Pwd256(_) => is_invalid_key_type(e, "Pwd256"@, "Password"@),
        _ => is_invalid_key_type(e, "None"@, "Password, FromFile or FromOS"@),
    }
}

fn invalid_key_type(given: &str, expected: &str) -> (res: EnkryptitError)
    ensures
        is_invalid_key_type(res, given@, expected@),
{
    EnkryptitError::InvalidKeyType(String::from_str(given), String::from_str(expected))
}

/// Where the key of an object comes from, for this direction and key type.
pub fn key_source(mode: Mode, keytype: &KeyType) -> (res: Result<KeySource, EnkryptitError>)
    ensures
        key_source_ok(mode, *keytype) matches Some(s) ==> res == Ok::<KeySource, EnkryptitError>(s),
        key_source_ok(mode, *keytype) is None ==> (res matches Err(e) && key_source_refusal(e, *keytype)),
{
    match keytype {
        KeyType::Password => {
            if mode != Mode::Encrypting {
                return Err(invalid_key_type("Password", "Pwd256"));
            }
            Ok(KeySource::NewPassword)
        },
        KeyType::FromFile => Ok(KeySource::File),
        KeyType::FromOS => Ok(KeySource::Os),
        KeyType::Pwd256(salt) => {
            if mode != Mode::Decrypting {
                return Err(invalid_key_type("Pwd256", "Password"));
            }
            Ok(KeySource::SaltedPassword(*salt))
        },
        KeyType::NoKey => Err(invalid_key_type("None", "Password, FromFile or FromOS")),
    }
}

/// A key obtained from storage.
#[derive(Debug, Clone, Copy, PartialEq, Eq)]
pub enum StoredKey {
    /// The key that was stored.
    Loaded([u8; 32]),
    /// A key generated now, which the caller must store.
    Generated([u8; 32]),
}

/// The key that stored text denotes, when there is text and it is a valid
/// key.
pub open spec fn loadable_key(stored: Option<Seq<u8>>) -> Option<Seq<u8>> {
    match stored {
        Some(text) => match spec_key_from_hex(text) {
            Ok(k) => Some(k),
            Err(_) => None,
        },
        None => None,
    }
}

/// What resolving a stored key ends in: a loadable key is used; otherwise
/// a key is generated when encrypting (or `RandomUnavailable` when none can
/// be drawn), and the key is missing when decrypting.
pub open spec fn stored_key_resolved(mode: Mode, stored: Option<Seq<u8>>, res: Result<StoredKey, EnkryptitError>) -> bool {
    match loadable_key(stored) {
        Some(k) => res matches Ok(StoredKey::Loaded(key)) && key@ == k,
        None => if mode == Mode::Encrypting {
            res matches Ok(StoredKey::Generated(_)) || res == Err::<StoredKey, EnkryptitError>(
                EnkryptitError::RandomUnavailable,
            )
        } else {
            res == Err::<StoredKey, EnkryptitError>(EnkryptitError::KeyNotFound)
        },
    }
}

fn resolve_stored_text(mode: Mode, stored: Option<&[u8]>) -> (res: Result<StoredKey, EnkryptitError>)
    ensures
        stored_key_resolved(mode, match stored { Some(t) => Some(t@), None => None }, res),
{
    let loaded = match stored {
        Some(text) => match key_from_hex(text) {
            Ok(key) => Some(key),
            Err(_) => None,
        },
        None => None,
    };
    match loaded {
        Some(key) => Ok(StoredKey::Loaded(key)),
        None => match mode {
            Mode::Encrypting => match generate_key() {
                Ok(key) => Ok(StoredKey::Generated(key)),
                Err(e) => Err(e),
            },
            Mode::Decrypting => Err(EnkryptitError::KeyNotFound),
        },
    }
}

/// The key of an object kept in a key file, from the direction of the
/// treatment and the content of the file (`None` when it could not be
/// read): the stored key when the content is one, else a new key to write
/// when encrypting, or `KeyNotFound` when decrypting.
pub fn resolve_key_from_file(mode: Mode, stored: Option<Vec<u8>>) -> (res: Result<StoredKey, EnkryptitError>)
    ensures
        stored_key_resolved(mode, match stored { Some(t) => Some(t@), None => None }, res),
{
    match stored {
        Some(text) => resolve_stored_text(mode, Some(text.as_slice())),
        None => resolve_stored_text(mode, None),
    }
}

/// The key of an object kept in the OS credential store, from the
/// direction of the treatment and the stored secret (`None` when there is
/// none): the stored key when the secret is one, else a new key to store
/// when encrypting, or `KeyNotFound` when decrypting.
pub fn resolve_key_from_os(mode: Mode, stored: Option<String>) -> (res: Result<StoredKey, EnkryptitError>)
    ensures
        stored_key_resolved(mode, match stored { Some(t) => Some(encode_utf8(t@)), None => None }, res),
{
    match stored {
        Some(text) => resolve_stored_text(mode, Some(text.as_str().as_bytes())),
        None => resolve_stored_text(mode, None),
    }
}

/// Runs `f` on the master key kept in the OS credential store, given what
/// reading the store returned: its error is passed on, stored text that is
/// not a key gives the error that reading it gives, and otherwise the
/// result of `f` on the key is returned.
pub fn with_master_key<F, R>(f: F, stored: Result<String, EnkryptitError>) -> (res: Result<R, EnkryptitError>)
    where
        F: FnOnce(&[u8; 32]) -> R,
    requires
        forall|key: &[u8; 32]| f.requires((key,)),
    ensures
        match stored {
            Err(e) => res == Err::<R, EnkryptitError>(e),
            Ok(text) => match spec_key_from_hex(encode_utf8(text@)) {
                Err(e) => res == Err::<R, EnkryptitError>(e),
                Ok(k) => res matches Ok(r) && exists|key: &[u8; 32]| key@ == k && f.ensures((key,), r),
            },
        },
{
    let text = match stored {
        Ok(t) => t,
        Err(e) => return Err(e),
    };
    let key = match key_from_hex(text.as_str().as_bytes()) {
        Ok(k) => k,
        Err(e) => return Err(e),
    };
    let r = f(&key);
    Ok(r)
}

/// What the front end obtained for a key source.
#[derive(Debug, Clone)]
pub enum KeyMaterial {
    /// The password the user typed or passed.
    Password(String),
    /// The content of the key file, or `None` when it could not be read.
    KeyFile(Option<Vec<u8>>),
    /// The secret in the OS credential store, or `None` when there is none.
    Keyring(Option<String>),
}

/// Whether the material is of the kind the source calls for.
pub open spec fn material_fits(source: KeySource, material: KeyMaterial) -> bool {
    match source {
        KeySource::NewPassword | KeySource::SaltedPassword(_) => material is Password,
        KeySource::File => material is KeyFile,
        KeySource::Os => material is Keyring,
    }
}

/// A resolved key and the key type that goes with it.
pub struct EnkryptitKey {
    key: [u8; 32],
    key_type: KeyType,
}

impl EnkryptitKey {
    /// The 32 key bytes.
    pub closed spec fn bytes(&self) -> Seq<u8> {
        self.key@
    }

    /// The key type recorded with the key.
    pub closed spec fn kind(&self) -> KeyType {
        self.key_type
    }

    /// The key bytes.
    pub fn key_as_ref(&self) -> (res: &[u8; 32])
        ensures
            res@ == self.bytes(),
    {
        &self.key
    }

    /// The key type, taking the key.
    pub fn key_type(self) -> (res: KeyType)
        ensures
            res == self.kind(),
    {
        self.key_type
    }

    /// The key type.
    pub fn key_type_as_ref(&self) -> (res: &KeyType)
        ensures
            *res == self.kind(),
    {
        &self.key_type
    }
}

/// A resolved key, and whether it was generated now and must be stored.
pub struct Resolution {
    pub key: EnkryptitKey,
    pub to_store: bool,
}

/// The UTF-8 bytes of a password.
pub open spec fn password_bytes(password: String) -> Seq<u8> {
    vstd::utf8::encode_utf8(password@)
}

/// Whether a resolution from stored text is the one that text calls for:
/// a loadable key is used as it is; otherwise a key is generated (and must
/// be stored) when encrypting, unless no random key can be drawn, and the
/// key is missing when decrypting.
pub open spec fn stored_key_is(mode: Mode, stored: Option<Seq<u8>>, kind: KeyType, res: Result<Resolution, EnkryptitError>) -> bool {
    match loadable_key(stored) {
        Some(k) => res matches Ok(r) && r.key.bytes() == k && r.key.kind() == kind && !r.to_store,
        None => if mode == Mode::Encrypting {
            (res matches Ok(r) && r.key.kind() == kind && r.to_store) || res == Err::<Resolution, EnkryptitError>(
                EnkryptitError::RandomUnavailable,
            )
        } else {
            res == Err::<Resolution, EnkryptitError>(EnkryptitError::KeyNotFound)
        },
    }
}

/// Whether resolution ended as the key source and material call for:
/// a new password gives its hash under the salt recorded in the returned
/// `Pwd256` key type (or fails, too long or for want of a random salt); a salted password gives its hash under that salt and
/// records no key type; a stored key is used as it is; a missing stored
/// key is generated (and must be stored) when encrypting, and is an error
/// when decrypting.
pub open spec fn resolved_as(
    source: KeySource,
    mode: Mode,
    material: KeyMaterial,
    res: Result<Resolution, EnkryptitError>,
) -> bool {
    match (source, material) {
        (KeySource::NewPassword, KeyMaterial::Password(pw)) => match res {
            Ok(r) => {
                &&& r.key.kind() matches KeyType::Pwd256(salt)
                &&& r.key.bytes() == spec_password_key(password_bytes(pw), salt@)
                &&& password_bytes(pw).len() <= 0xFFFF_FFFF
                &&& !r.to_store
            },
            Err(e) => e == EnkryptitError::RandomUnavailable || (e == EnkryptitError::KeyDerivation
                && password_bytes(pw).len() > 0xFFFF_FFFF),
        },
        (KeySource::SaltedPassword(salt), KeyMaterial::Password(pw)) => match res {
            Ok(r) => {
                &&& r.key.kind() == KeyType::NoKey
                &&& r.key.bytes() == spec_password_key(password_bytes(pw), salt@)
                &&& password_bytes(pw).len() <= 0xFFFF_FFFF
                &&& !r.to_store
            },
            Err(e) => e == EnkryptitError::KeyDerivation && password_bytes(pw).len() > 0xFFFF_FFFF,
        },
        (KeySource::File, KeyMaterial::KeyFile(stored)) => stored_key_is(
            mode,
            match stored { Some(t) => Some(t@), None => None },
            KeyType::FromFile,
            res,
        ),
        (KeySource::Os, KeyMaterial::Keyring(stored)) => stored_key_is(
            mode,
            match stored { Some(t) => Some(encode_utf8(t@)), None => None },
            KeyType::FromOS,
            res,
        ),
        _ => false,
    }
}

/// The stored key text as bytes.
pub open spec fn stored_bytes(stored: Option<Vec<u8>>) -> Option<Seq<u8>> {
    match stored {
        Some(t) => Some(t@),
        None => None,
    }
}

/// The stored secret as UTF-8 bytes.
pub open spec fn stored_secret(stored: Option<String>) -> Option<Seq<u8>> {
    match stored {
        Some(t) => Some(encode_utf8(t@)),
        None => None,
    }
}

/// Whether a resolution is what the stored-key helper's outcome gives: its
/// key with the given key type (to be stored when it was generated now), or
/// its error unchanged.
pub open spec fn follows_stored(h: Result<StoredKey, EnkryptitError>, kind: KeyType, res: Result<Resolution, EnkryptitError>) -> bool {
    match h {
        Ok(StoredKey::Loaded(k)) => res matches Ok(r) && r.key.bytes() == k@ && r.key.kind() == kind && !r.to_store,
        Ok(StoredKey::Generated(k)) => res matches Ok(r) && r.key.bytes() == k@ && r.key.kind() == kind && r.to_store,
        Err(e) => res == Err::<Resolution, EnkryptitError>(e),
    }
}

fn resolution_from(h: Result<StoredKey, EnkryptitError>, kind: KeyType) -> (res: Result<Resolution, EnkryptitError>)
    ensures
        follows_stored(h, kind, res),
{
    match h {
        Ok(StoredKey::Loaded(key)) => Ok(Resolution { key: EnkryptitKey { key, key_type: kind }, to_store: false }),
        Ok(StoredKey::Generated(key)) => Ok(Resolution { key: EnkryptitKey { key, key_type: kind }, to_store: true }),
        Err(e) => Err(e),
    }
}

impl EnkryptitKey {
    /// Resolves the key of an object from the direction of the treatment,
    /// its key type, and the material the front end obtained for the
    /// source that [`key_source`] names.
    pub fn resolve(mode: Mode, keytype: &KeyType, material: KeyMaterial) -> (res: Result<Resolution, EnkryptitError>)
        ensures
            key_source_ok(mode, *keytype) matches Some(source) ==> (material_fits(source, material) ==> resolved_as(
                source,
                mode,
                material,
                res,
            )),
            key_source_ok(mode, *keytype) matches Some(source) ==> (!material_fits(source, material) ==> res
                == Err::<Resolution, EnkryptitError>(EnkryptitError::KeyNotFound)),
            key_source_ok(mode, *keytype) is None ==> (res matches Err(e) && key_source_refusal(e, *keytype)),
            key_source_ok(mode, *keytype) == Some(KeySource::File) ==> (material matches KeyMaterial::KeyFile(stored)
                ==> exists|h: Result<StoredKey, EnkryptitError>|
                #![trigger follows_stored(h, KeyType::FromFile, res)]
                stored_key_resolved(mode, stored_bytes(stored), h) && follows_stored(h, KeyType::FromFile, res)),
            key_source_ok(mode, *keytype) == Some(KeySource::Os) ==> (material matches KeyMaterial::Keyring(stored)
                ==> exists|h: Result<StoredKey, EnkryptitError>|
                #![trigger follows_stored(h, KeyType::FromOS, res)]
                stored_key_resolved(mode, stored_secret(stored), h) && follows_stored(h, KeyType::FromOS, res)),
    {
        let source = match key_source(mode, keytype) {
            Ok(s) => s,
            Err(e) => return Err(e),
        };
        match (source, material) {
            (KeySource::NewPassword, KeyMaterial::Password(pw)) => {
                match key_from_password(pw.as_str()) {
                    Ok((key, salt)) => Ok(Resolution { key: EnkryptitKey { key, key_type: KeyType::Pwd256(salt) }, to_store: false }),
                    Err(e) => Err(e),
                }
            },
            (KeySource::SaltedPassword(salt), KeyMaterial::Password(pw)) => {
                match derive_key(pw.as_str(), salt) {
                    Ok(key) => Ok(Resolution { key: EnkryptitKey { key, key_type: KeyType::NoKey }, to_store: false }),
                    Err(e) => Err(e),
                }
            },
            (KeySource::File, KeyMaterial::KeyFile(stored)) => {
                let h = resolve_key_from_file(mode, stored);
                let res = resolution_from(h, KeyType::FromFile);
                assert(follows_stored(h, KeyType::FromFile, res));
                res
            },
            (KeySource::Os, KeyMaterial::Keyring(stored)) => {
                let h = resolve_key_from_os(mode, stored);
                let res = resolution_from(h, KeyType::FromOS);
                assert(follows_stored(h, KeyType::FromOS, res));
                res
            },
            _ => Err(EnkryptitError::KeyNotFound),
        }
    }
}

/// A password key is reproducible: the key that encryption derives from a
/// password is the key that decryption derives from the same password and
/// the key type recorded at encryption.
pub proof fn lemma_password_key_reproducible(
    password: String,
    encrypted: Resolution,
    decrypted: Result<Resolution, EnkryptitError>,
)
    requires
        resolved_as(KeySource::NewPassword, Mode::Encrypting, KeyMaterial::Password(password), Ok(encrypted)),
        encrypted.key.kind() matches KeyType::Pwd256(salt) && resolved_as(
            KeySource::SaltedPassword(salt),
            Mode::Decrypting,
            KeyMaterial::Password(password),
            decrypted,
        ),
    ensures
        encrypted.key.kind() matches KeyType::Pwd256(salt) && key_source_ok(Mode::Decrypting, encrypted.key.kind())
            == Some(KeySource::SaltedPassword(salt)),
        decrypted matches Ok(r) && r.key.bytes() == encrypted.key.bytes(),
{
}

/// A key stored when an object is encrypted is the key found when it is
/// decrypted: the text written for a key loads as that very key.
pub proof fn lemma_stored_key_found(key: [u8; 32])
    ensures
        loadable_key(Some(encode_utf8(spec_hex_lower(key@)))) == Some(key@),
{
    lemma_stored_key_roundtrip(key);
}

/// Every key source that the parameters can name can encrypt.
pub proof fn lemma_parameter_key_types_encrypt(params: KeyParams)
    ensures
        key_source_ok(Mode::Encrypting, key_type_for(params)) is Some,
{
}

/// A key generated for a missing stored key, once its text is stored, is
/// the key found when the object is decrypted.
pub proof fn lemma_generated_key_reloads(
    stored: Option<Seq<u8>>,
    generated: Result<StoredKey, EnkryptitError>,
    reloaded: Result<StoredKey, EnkryptitError>,
)
    requires
        stored_key_resolved(Mode::Encrypting, stored, generated),
        generated matches Ok(StoredKey::Generated(k)) && stored_key_resolved(
            Mode::Decrypting,
            Some(encode_utf8(spec_hex_lower(k@))),
            reloaded,
        ),
    ensures
        generated matches Ok(StoredKey::Generated(k)) && reloaded matches Ok(StoredKey::Loaded(k2)) && k2@ == k@,
{
    if let Ok(StoredKey::Generated(k)) = generated {
        lemma_stored_key_found(k);
    }
}

/// A payload sealed under a password key opens, under the key that
/// decryption derives from the same password and the recorded key type,
/// to the plaintext that was sealed.
pub proof fn lemma_password_archive_round_trip(
    password: String,
    encrypted: Resolution,
    decrypted: Result<Resolution, EnkryptitError>,
    nonce: Seq<u8>,
    data: Seq<u8>,
    sealed: Seq<u8>,
)
    requires
        resolved_as(KeySource::NewPassword, Mode::Encrypting, KeyMaterial::Password(password), Ok(encrypted)),
        encrypted.key.kind() matches KeyType::Pwd256(salt) && resolved_as(
            KeySource::SaltedPassword(salt),
            Mode::Decrypting,
            KeyMaterial::Password(password),
            decrypted,
        ),
        spec_open_payload(encrypted.key.bytes(), nonce, sealed, 0) == Some(data),
    ensures
        decrypted matches Ok(r) && spec_open_payload(r.key.bytes(), nonce, sealed, 0) == Some(data),
{
    lemma_password_key_reproducible(password, encrypted, decrypted);
}

/// A payload sealed under a stored key (loaded, or generated and then
/// stored as its text) opens, under the key that decryption resolves from
/// what is stored, to the plaintext that was sealed.
pub proof fn lemma_stored_key_archive_round_trip(
    stored: Option<Seq<u8>>,
    kind: KeyType,
    encrypted: Resolution,
    decrypted: Result<Resolution, EnkryptitError>,
    nonce: Seq<u8>,
    data: Seq<u8>,
    sealed: Seq<u8>,
)
    requires
        stored_key_is(Mode::Encrypting, stored, kind, Ok(encrypted)),
        stored_key_is(
            Mode::Decrypting,
            if encrypted.to_store { Some(encode_utf8(spec_hex_lower(encrypted.key.bytes()))) } else { stored },
            kind,
            decrypted,
        ),
        spec_open_payload(encrypted.key.bytes(), nonce, sealed, 0) == Some(data),
    ensures
        decrypted matches Ok(r) && spec_open_payload(r.key.bytes(), nonce, sealed, 0) == Some(data),
{
    if encrypted.to_store {
        lemma_stored_key_found(encrypted.key.key);
    }
}

/// Whether decryption resolved the key that encryption used.
pub open spec fn same_key(encrypted: Resolution, decrypted: Result<Resolution, EnkryptitError>) -> bool {
    decrypted matches Ok(r) && r.key.bytes() == encrypted.key.bytes()
}

/// Decryption with the same password and the recorded key type resolves
/// the key that encryption derived.
pub proof fn lemma_password_key_matches(password: String, encrypted: Resolution, decrypted: Result<Resolution, EnkryptitError>)
    requires
        resolved_as(KeySource::NewPassword, Mode::Encrypting, KeyMaterial::Password(password), Ok(encrypted)),
        encrypted.key.kind() matches KeyType::Pwd256(salt) && resolved_as(
            KeySource::SaltedPassword(salt),
            Mode::Decrypting,
            KeyMaterial::Password(password),
            decrypted,
        ),
    ensures
        same_key(encrypted, decrypted),
{
    lemma_password_key_reproducible(password, encrypted, decrypted);
}

/// Decryption from what is stored (the same text, or the text of the key
/// generated and stored at encryption) resolves the key that encryption
/// used.
pub proof fn lemma_stored_key_matches(
    stored: Option<Seq<u8>>,
    kind: KeyType,
    encrypted: Resolution,
    decrypted: Result<Resolution, EnkryptitError>,
)
    requires
        stored_key_is(Mode::Encrypting, stored, kind, Ok(encrypted)),
        stored_key_is(
            Mode::Decrypting,
            if encrypted.to_store { Some(encode_utf8(spec_hex_lower(encrypted.key.bytes()))) } else { stored },
            kind,
            decrypted,
        ),
    ensures
        same_key(encrypted, decrypted),
{
    if encrypted.to_store {
        lemma_stored_key_found(encrypted.key.key);
    }
}

/// The key type recorded for a key that a stored-key source holds: key
/// files hold `FromFile` keys, the OS credential store `FromOS` keys.
pub open spec fn stored_kind(source: KeySource) -> Option<KeyType> {
    match source {
        KeySource::File => Some(KeyType::FromFile),
        KeySource::Os => Some(KeyType::FromOS),
        _ => None,
    }
}

/// A stored key is read where it was stored: the source of a stored key
/// type is the same in both directions, and it is the store that holds
/// keys of that type (the store a key generated at encryption goes to).
pub proof fn lemma_stored_key_source(first: Mode, second: Mode, keytype: KeyType)
    ensures
        key_source_ok(first, keytype) matches Some(s) ==> (stored_kind(s) is Some ==> stored_kind(s) == Some(keytype)),
        keytype == KeyType::FromFile || keytype == KeyType::FromOS ==> key_source_ok(first, keytype) is Some
            && key_source_ok(first, keytype) == key_source_ok(second, keytype),
{
}

} // verus!
