use vstd::prelude::*;
use crate::text::{decimal, hex_encode, spec_decimal, spec_hex_lower};

verus! {

/// Version type.
pub type Version = u8;

/// Size of a block that is compressed and encrypted at once.
pub const CHUNK_SIZE: usize = 8388608;

/// How the key of an object is obtained.
#[derive(Debug, Clone, PartialEq, Eq)]
pub enum KeyType {
    Password,
    Pwd256([u8; 16]),
    FromFile,
    FromOS,
    NoKey,
}

/// The key source chosen in the parameters.
#[derive(Debug, Clone, Copy, PartialEq, Eq, Structural)]
pub enum KeyParams {
    PassWord,
    File,
    Os,
}

/// The key type that a key source stands for at encryption time.
pub open spec fn key_type_for(params: KeyParams) -> KeyType {
    match params {
        KeyParams::File => KeyType::FromFile,
        KeyParams::Os => KeyType::FromOS,
        KeyParams::PassWord => KeyType::Password,
    }
}

impl KeyParams {
    /// The key type that a key source stands for at encryption time.
    pub fn to_type(&self) -> (res: KeyType)
        ensures
            res == key_type_for(*self),
    {
        match self {
            KeyParams::File => KeyType::FromFile,
            KeyParams::Os => KeyType::FromOS,
            KeyParams::PassWord => KeyType::Password,
        }
    }
}

} // verus!

verus! {

/// Compression algorithm applied before encryption.
#[derive(Debug, Clone, Copy, PartialEq, Eq, Structural)]
pub enum CompressionType {
    Lz4,
    Zstd,
    Xz,
    NoComp,
    Auto,
}

/// Whether an object is being encrypted or decrypted.
#[derive(Debug, Clone, Copy, PartialEq, Eq, Structural)]
pub enum Mode {
    Encrypting,
    Decrypting,
}

/// The front end that drives a treatment.
#[derive(Debug, Clone, Copy, PartialEq, Eq, Structural)]
pub enum Interface {
    Cli,
    Tui,
}

/// How many threads treat an object.
#[derive(Debug, Clone, Copy, PartialEq, Eq, Structural)]
pub enum ParallelismType {
    Auto,
    MultiThread(u8),
    Single,
}

} // verus!

verus! {

/// Text shown for a key type.
pub open spec fn key_type_text(k: KeyType) -> Seq<char> {
    match k {
        KeyType::FromFile => "from file"@,
        KeyType::FromOS => "from os keyring"@,
        KeyType::NoKey => "no keytype used (should not happen if the file is encrypted"@,
        KeyType::Password => "password"@,
        KeyType::Pwd256(salt) => "hashed password, with the following salt : "@ + spec_hex_lower(salt@),
    }
}

/// Text shown for a compression type.
pub open spec fn compression_text(c: CompressionType) -> Seq<char> {
    match c {
        CompressionType::Auto => "Automatic"@,
        CompressionType::Lz4 => "Lz4 (fastest)"@,
        CompressionType::Xz => "Xz (slowest but most efficient)"@,
        CompressionType::NoComp => "No compression"@,
        CompressionType::Zstd => "Zstd (Balanced)"@,
    }
}

/// Text shown for a parallelism type.
pub open spec fn parallelism_text(p: ParallelismType) -> Seq<char> {
    match p {
        ParallelismType::Auto => "Automatic"@,
        ParallelismType::MultiThread(n) => "MultiThreading with "@ + spec_decimal(n as nat) + " threads"@,
        ParallelismType::Single => "SingleThread"@,
    }
}

impl KeyType {
    /// Human-readable description of the key type.
    pub fn to_string(&self) -> (res: String)
        ensures
            res@ == key_type_text(*self),
    {
        match self {
            KeyType::FromFile => String::from_str("from file"),
            KeyType::FromOS => String::from_str("from os keyring"),
            KeyType::NoKey => String::from_str("no keytype used (should not happen if the file is encrypted"),
            KeyType::Password => String::from_str("password"),
            KeyType::Pwd256(salt) => {
                let mut s = String::from_str("hashed password, with the following salt : ");
                let digits = hex_encode(salt);
                s.append(digits.as_str());
                s
            },
        }
    }
}

impl CompressionType {
    /// Human-readable description of the compression type.
    pub fn to_string(&self) -> (res: String)
        ensures
            res@ == compression_text(*self),
    {
        match self {
            CompressionType::Auto => String::from_str("Automatic"),
            CompressionType::Lz4 => String::from_str("Lz4 (fastest)"),
            CompressionType::Xz => String::from_str("Xz (slowest but most efficient)"),
            CompressionType::NoComp => String::from_str("No compression"),
            CompressionType::Zstd => String::from_str("Zstd (Balanced)"),
        }
    }
}

impl ParallelismType {
    /// Description of the parallelism type, the single source of its text.
    pub fn description(&self) -> (res: String)
        ensures
            res@ == parallelism_text(*self),
    {
        match self {
            ParallelismType::Auto => String::from_str("Automatic"),
            ParallelismType::MultiThread(n) => {
                let mut s = String::from_str("MultiThreading with ");
                let count = decimal(*n as u64);
                s.append(count.as_str());
                s.append(" threads");
                s
            },
            ParallelismType::Single => String::from_str("SingleThread"),
        }
    }

    /// Same text as [`ParallelismType::description`].
    pub fn to_string(&self) -> (res: String)
        ensures
            res@ == parallelism_text(*self),
    {
        self.description()
    }
}

} // verus!
