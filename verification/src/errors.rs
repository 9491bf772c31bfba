//! The error type shared by every part of Enkryptit!.
use vstd::prelude::*;

verus! {

/// Everything that can go wrong while treating, inspecting or configuring.
#[derive(Debug, Clone, PartialEq, Eq)]
pub enum EnkryptitError {
    /// The memory holding a key could not be locked.
    MemoryLockError,
    /// The home directory of the user could not be found.
    HomeNotFound,
    /// A path has no file name.
    FileError,
    /// A stored key does not hold exactly 32 bytes.
    InvalidKeyLength,
    /// A key type was used where another one is expected: (given, expected).
    InvalidKeyType(String, String),
    /// No stored key exists for the object being decrypted.
    KeyNotFound,
    /// The archive is damaged or truncated.
    CorruptedFile,
    /// A pool was asked for zero workers.
    InvalidWorkerCount,
    /// A job could not be handed to the workers.
    SendError,
    /// A result could not be received from the workers.
    ReceiveError,
    /// The configuration directory could not be determined.
    ConfigError,
    /// A path cannot be split into a name and a directory.
    PathIsIncorrect(String),
    /// Inspecting an object failed.
    InspectionError,
    /// An interactive prompt was cancelled or has no answer.
    CommandNotFound,
    /// Authenticated encryption failed.
    Encryption,
    /// Authenticated decryption failed: wrong key or tampered data.
    Decryption,
    /// Stored key text is not hexadecimal.
    HexError,
    /// The password hash could not be computed.
    KeyDerivation,
    /// The operating system could not supply random bytes.
    RandomUnavailable,
    /// An input/output operation failed, with its message.
    Io(String),
    /// The OS credential store failed, with its message.
    Keyring(String),
    /// Encoding or decoding a stored structure failed, with its message.
    Serialization(String),
    /// A permission mode could not be rendered, with its message.
    Permission(String),
}

/// Text shown for an error.
pub open spec fn error_text(e: EnkryptitError) -> Seq<char> {
    match e {
        EnkryptitError::MemoryLockError => "The memory holding the key could not be locked"@,
        EnkryptitError::HomeNotFound => "The home directory could not be found"@,
        EnkryptitError::FileError => "The path has no file name"@,
        EnkryptitError::InvalidKeyLength => "The stored key does not hold 32 bytes"@,
        EnkryptitError::KeyNotFound => "No key was found for this object"@,
        EnkryptitError::CorruptedFile => "The archive is corrupted"@,
        EnkryptitError::InvalidWorkerCount => "The number of workers must be greater than 0"@,
        EnkryptitError::SendError => "A job could not be handed to the workers"@,
        EnkryptitError::ReceiveError => "A result could not be received from the workers"@,
        EnkryptitError::ConfigError => "The configuration directory could not be found"@,
        EnkryptitError::InspectionError => "A severe error occured while inspecting the file"@,
        EnkryptitError::CommandNotFound => "Selection cancelled"@,
        EnkryptitError::Encryption => "Encryption failed"@,
        EnkryptitError::Decryption => "Decryption failed: wrong key, or the archive was modified"@,
        EnkryptitError::HexError => "The stored key is not hexadecimal text"@,
        EnkryptitError::KeyDerivation => "The password could not be hashed"@,
        EnkryptitError::RandomUnavailable => "The operating system could not supply random bytes"@,
        EnkryptitError::InvalidKeyType(given, expected) => "Invalid key type: "@ + given@ + " (expected "@ + expected@ + ")"@,
        EnkryptitError::PathIsIncorrect(m) => "Path is incorrect: "@ + m@,
        EnkryptitError::Io(m) => "Input/output error: "@ + m@,
        EnkryptitError::Keyring(m) => "OS keyring error: "@ + m@,
        EnkryptitError::Serialization(m) => "Serialization error: "@ + m@,
        EnkryptitError::Permission(m) => "Permission error: "@ + m@,
    }
}

impl EnkryptitError {
    /// Human-readable description of the error.
    pub fn to_string(&self) -> (res: String)
        ensures
            res@ == error_text(*self),
    {
        match self {
            EnkryptitError::MemoryLockError => String::from_str("The memory holding the key could not be locked"),
            EnkryptitError::HomeNotFound => String::from_str("The home directory could not be found"),
            EnkryptitError::FileError => String::from_str("The path has no file name"),
            EnkryptitError::InvalidKeyLength => String::from_str("The stored key does not hold 32 bytes"),
            EnkryptitError::KeyNotFound => String::from_str("No key was found for this object"),
            EnkryptitError::CorruptedFile => String::from_str("The archive is corrupted"),
            EnkryptitError::InvalidWorkerCount => String::from_str("The number of workers must be greater than 0"),
            EnkryptitError::SendError => String::from_str("A job could not be handed to the workers"),
            EnkryptitError::ReceiveError => String::from_str("A result could not be received from the workers"),
            EnkryptitError::ConfigError => String::from_str("The configuration directory could not be found"),
            EnkryptitError::InspectionError => String::from_str("A severe error occured while inspecting the file"),
            EnkryptitError::CommandNotFound => String::from_str("Selection cancelled"),
            EnkryptitError::Encryption => String::from_str("Encryption failed"),
            EnkryptitError::Decryption => String::from_str("Decryption failed: wrong key, or the archive was modified"),
            EnkryptitError::HexError => String::from_str("The stored key is not hexadecimal text"),
            EnkryptitError::KeyDerivation => String::from_str("The password could not be hashed"),
            EnkryptitError::RandomUnavailable => String::from_str("The operating system could not supply random bytes"),
            EnkryptitError::InvalidKeyType(given, expected) => {
                let mut s = String::from_str("Invalid key type: ");
                s.append(given.as_str());
                s.append(" (expected ");
                s.append(expected.as_str());
                s.append(")");
                s
            },
            EnkryptitError::PathIsIncorrect(m) => {
                let mut s = String::from_str("Path is incorrect: ");
                s.append(m.as_str());
                s
            },
            EnkryptitError::Io(m) => {
                let mut s = String::from_str("Input/output error: ");
                s.append(m.as_str());
                s
            },
            EnkryptitError::Keyring(m) => {
                let mut s = String::from_str("OS keyring error: ");
                s.append(m.as_str());
                s
            },
            EnkryptitError::Serialization(m) => {
                let mut s = String::from_str("Serialization error: ");
                s.append(m.as_str());
                s
            },
            EnkryptitError::Permission(m) => {
                let mut s = String::from_str("Permission error: ");
                s.append(m.as_str());
                s
            },
        }
    }
}

} // verus!
