//! Reproducible sample content.

use eck::frontend::encrypted_path_for;
use eck::samples::generate_random_content;

#[test]
fn generate_random_content_size_0() {
    let content = generate_random_content(0);
    assert!(content.is_empty());
}

#[test]
fn generate_random_content_size_1kb() {
    let content = generate_random_content(1024);
    assert_eq!(content.len(), 1024);
}

#[test]
fn generate_random_content_follows_its_formula() {
    let content = generate_random_content(600);
    for (i, byte) in content.iter().enumerate() {
        assert_eq!(*byte as u128, (i as u128 * 2654435781) % 256);
    }
    assert_eq!(content[0], 0);
    assert_eq!(content[1], 197);
    assert_eq!(content[2], 138);
}

#[test]
fn encrypted_path_appends_extension() {
    assert_eq!(encrypted_path_for("/home/user/secrets/secrets.txt"), "/home/user/secrets/secrets.txt.encky");
    assert_eq!(encrypted_path_for(""), ".encky");
}
