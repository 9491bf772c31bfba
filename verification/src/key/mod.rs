//! Keys: how they are derived from passwords, stored as text, and chosen
//! for an object.
pub mod derivation;
pub mod resolve;
pub mod storage;
