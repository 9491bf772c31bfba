//! Texts shown for errors.

use eck::errors::EnkryptitError;

#[test]
fn error_texts() {
    assert_eq!(EnkryptitError::KeyNotFound.to_string(), "No key was found for this object");
    assert_eq!(EnkryptitError::RandomUnavailable.to_string(), "The operating system could not supply random bytes");
    assert_eq!(
        EnkryptitError::InvalidKeyType("Password".to_string(), "Pwd256".to_string()).to_string(),
        "Invalid key type: Password (expected Pwd256)"
    );
    assert_eq!(EnkryptitError::Io("denied".to_string()).to_string(), "Input/output error: denied");
    assert_eq!(EnkryptitError::PathIsIncorrect("/x".to_string()).to_string(), "Path is incorrect: /x");
}
