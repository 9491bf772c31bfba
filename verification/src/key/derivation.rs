//! Password hashing with Argon2id, and fresh random key material.
use vstd::prelude::*;
use crate::errors::EnkryptitError;
use vstd::string::StringSliceAdditionalSpecFns;
use crate::parameters::{ARGON2_ITERATIONS, ARGON2_MEMORY_COST, ARGON2_PARALLELISM};

verus! {

#[verifier::external_type_specification]
#[verifier::external_body]
pub struct ExArgon2Error(argon2::Error);

/// The 32-byte Argon2id (version 0x13) hash of a password with a salt,
/// under the given memory, time and parallelism costs.
pub uninterp spec fn argon2id_digest(password: Seq<u8>, salt: Seq<u8>, m_cost: u32, t_cost: u32, p_cost: u32) -> Seq<u8>;

/// `argon2::Params::new` with a 32-byte output, then
/// `Argon2::new(Algorithm::Argon2id, Version::V0x13, params).hash_password_into`:
/// with valid costs it fails only on a password longer than `u32::MAX`
/// bytes or a salt shorter than 8 or longer than `u32::MAX` bytes; its hash
/// depends on the password, the salt and the costs alone.
#[verifier::external_body]
fn argon2id_hash(password: &[u8], salt: &[u8], m_cost: u32, t_cost: u32, p_cost: u32) -> (res: Result<[u8; 32], argon2::Error>)
    requires
        1 <= p_cost <= 0xFFFFFF,
        m_cost >= 8 * p_cost,
        t_cost >= 1,
    ensures
        res is Ok <==> (password@.len() <= 0xFFFF_FFFF && 8 <= salt@.len() <= 0xFFFF_FFFF),
        res matches Ok(key) ==> key@ == argon2id_digest(password@, salt@, m_cost, t_cost, p_cost),
{
    let params = argon2::Params::new(m_cost, t_cost, p_cost, Some(32))?;
    let hasher = argon2::Argon2::new(argon2::Algorithm::Argon2id, argon2::Version::V0x13, params);
    let mut key = [0u8; 32];
    hasher.hash_password_into(password, salt, &mut key)?;
    Ok(key)
}

#[verifier::external_type_specification]
#[verifier::external_body]
pub struct ExRandError(rand::Error);

/// `rand::rngs::OsRng::try_fill_bytes`: bytes from the operating system's
/// random source, or the error it reports when it cannot supply them;
/// nothing is stated of the bytes' values, nor of when the source fails.
#[verifier::external_body]
pub(crate) fn os_random_bytes<const N: usize>() -> (res: Result<[u8; N], rand::Error>) {
    let mut bytes = [0u8; N];
    rand::RngCore::try_fill_bytes(&mut rand::rngs::OsRng, &mut bytes)?;
    Ok(bytes)
}

/// Random bytes, or `RandomUnavailable` when the operating system cannot
/// supply them.
pub(crate) fn random_bytes<const N: usize>() -> (res: Result<[u8; N], EnkryptitError>)
    ensures
        res matches Err(e) ==> e == EnkryptitError::RandomUnavailable,
{
    match os_random_bytes() {
        Ok(bytes) => Ok(bytes),
        Err(_) => Err(EnkryptitError::RandomUnavailable),
    }
}

/// The key that a password and a salt stand for.
pub open spec fn spec_password_key(password: Seq<u8>, salt: Seq<u8>) -> Seq<u8> {
    argon2id_digest(password, salt, ARGON2_MEMORY_COST, ARGON2_ITERATIONS, ARGON2_PARALLELISM)
}

/// Whether a password is short enough to be hashed.
pub open spec fn password_fits(password: &str) -> bool {
    password.spec_bytes().len() <= 0xFFFF_FFFF
}

/// Recomputes the key of a password with the salt stored in an archive.
pub fn derive_key(password: &str, salt: [u8; 16]) -> (res: Result<[u8; 32], EnkryptitError>)
    ensures
        res is Ok <==> password_fits(password),
        res matches Ok(key) ==> key@ == spec_password_key(password.spec_bytes(), salt@),
        res matches Err(e) ==> e == EnkryptitError::KeyDerivation,
{
    match argon2id_hash(password.as_bytes(), &salt, ARGON2_MEMORY_COST, ARGON2_ITERATIONS, ARGON2_PARALLELISM) {
        Ok(key) => Ok(key),
        Err(_) => Err(EnkryptitError::KeyDerivation),
    }
}

/// Hashes a password with a fresh random salt: gives the key and the salt
/// to store beside the archive. It fails with `RandomUnavailable` when no
/// salt can be drawn, and with `KeyDerivation` when the password is too
/// long to hash.
pub fn key_from_password(password: &str) -> (res: Result<([u8; 32], [u8; 16]), EnkryptitError>)
    ensures
        res matches Ok((key, salt)) ==> password_fits(password) && key@ == spec_password_key(password.spec_bytes(), salt@),
        res matches Err(e) ==> (e == EnkryptitError::RandomUnavailable || (e == EnkryptitError::KeyDerivation
            && !password_fits(password))),
        !password_fits(password) ==> res is Err,
{
    let salt: [u8; 16] = match random_bytes() {
        Ok(s) => s,
        Err(e) => return Err(e),
    };
    match derive_key(password, salt) {
        Ok(key) => Ok((key, salt)),
        Err(e) => Err(e),
    }
}

/// A fresh random 32-byte key, or `RandomUnavailable` when the operating
/// system cannot supply one.
pub fn generate_key() -> (res: Result<[u8; 32], EnkryptitError>)
    ensures
        res matches Err(e) ==> e == EnkryptitError::RandomUnavailable,
{
    random_bytes()
}

} // verus!
