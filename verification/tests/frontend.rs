//! Outcomes of treatments and menu choices.

use eck::errors::EnkryptitError;
use eck::frontend::{
    browse_menu_action, compression_from_menu, decrypt_file_case, decrypted_path_for, encrypted_path_for, decrypt_folder_case, encrypt_file_case,
    encrypt_folder_case, key_params_from_menu, menu_asks_thread_count, merge_picks, params_menu_action,
    treatment_menu_action, BrowseMenuAction, Output, ParamsMenuAction, TreatmentMenuAction,
};
use eck::types::{CompressionType, KeyParams};

fn message(o: Output) -> String {
    match o {
        Output::Success { message } => message,
        other => panic!("unexpected {other:?}"),
    }
}

#[test]
fn case_messages() {
    assert_eq!(message(encrypt_file_case(Ok("a.txt.encky".to_string()))), "file was encrypted at a.txt.encky !");
    assert_eq!(message(decrypt_file_case(Ok("a.txt".to_string()))), "file was decrypted at a.txt !");
    assert_eq!(message(encrypt_folder_case(Ok("d.encky".to_string()))), "folder was encrypted at d.encky !");
    assert_eq!(message(decrypt_folder_case(Ok("d".to_string()))), "folder was decrypted at d !");
}

#[test]
fn case_errors() {
    assert!(matches!(encrypt_file_case(Err(EnkryptitError::Encryption)), Output::Error { error: EnkryptitError::Encryption }));
    assert!(matches!(decrypt_folder_case(Err(EnkryptitError::KeyNotFound)), Output::Error { error: EnkryptitError::KeyNotFound }));
}

#[test]
fn menu_choices() {
    assert_eq!(compression_from_menu("Lz4 (fastest)"), CompressionType::Lz4);
    assert_eq!(compression_from_menu("Auto (automatically choosed by Enkryptit!)"), CompressionType::Auto);
    assert_eq!(compression_from_menu("???"), CompressionType::Zstd);
    assert_eq!(key_params_from_menu("OS Keyring"), KeyParams::Os);
    assert_eq!(key_params_from_menu("Key File"), KeyParams::File);
    assert_eq!(key_params_from_menu("???"), KeyParams::PassWord);
    assert!(menu_asks_thread_count("MultiThread"));
    assert!(!menu_asks_thread_count("Single"));
    assert_eq!(params_menu_action("Back to main menu"), Some(ParamsMenuAction::Back));
    assert_eq!(params_menu_action("Change key type"), Some(ParamsMenuAction::ChangeKeyType));
    assert_eq!(browse_menu_action("Browse both Files & Folders"), Some(BrowseMenuAction::FilesAndFolders));
    assert_eq!(browse_menu_action("Exit"), None);
    assert_eq!(treatment_menu_action("Inspect"), Some(TreatmentMenuAction::Inspect));
    assert_eq!(treatment_menu_action("Go Back"), Some(TreatmentMenuAction::GoBack));
}

#[test]
fn picks_folders_first() {
    let merged = merge_picks(vec!["dir".to_string()], vec!["a".to_string(), "b".to_string()]);
    assert_eq!(merged, vec!["dir".to_string(), "a".to_string(), "b".to_string()]);
}

#[test]
fn decrypted_paths() {
    assert_eq!(decrypted_path_for("/home/user/secrets.txt.encky"), Some("/home/user/secrets.txt".to_string()));
    assert_eq!(decrypted_path_for("/home/user/secrets.encky"), Some("/home/user/secrets".to_string()));
    assert_eq!(decrypted_path_for(".encky"), Some(String::new()));
    assert_eq!(decrypted_path_for("/home/user/secrets.txt"), None);
    assert_eq!(decrypted_path_for("encky"), None);
    assert_eq!(decrypted_path_for(""), None);
}

#[test]
fn decrypted_path_undoes_encrypted_path() {
    for p in ["/tmp/a.txt", "folder", "", "x.encky"] {
        assert_eq!(decrypted_path_for(&encrypted_path_for(p)), Some(p.to_string()));
    }
}
