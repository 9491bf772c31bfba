//! Main-menu actions of the terminal interface.

use eck::frontend::EnkryptitTuiAction;

#[test]
fn test_from_str_conversion_tui_action() {
    let values = [
        "Encrypt/Decrypt file/folder",
        "Parameters",
        "Help",
        "Browse",
    ];

    for value in values {
        if EnkryptitTuiAction::from_str(value).is_none() {
            panic!(
                "All EnkryptitActions should be converted correctly. This one fails : {}",
                value
            )
        }
    }
}

#[test]
fn from_str_maps_all_actions() {
    let cases = [
        ("Encrypt/Decrypt file/folder", "EncryptObject"),
        ("Parameters", "LaunchParams"),
        ("Help", "ShowHelp"),
        ("Browse", "Browse"),
    ];

    for (input, expected) in cases {
        let action = EnkryptitTuiAction::from_str(input);

        assert!(action.is_some(), "Expected action for {input}");

        match (expected, action.unwrap()) {
            ("EncryptObject", EnkryptitTuiAction::EncryptObject)
            | ("LaunchParams", EnkryptitTuiAction::LaunchParams)
            | ("ShowHelp", EnkryptitTuiAction::ShowHelp)
            | ("Browse", EnkryptitTuiAction::Browse) => {}
            _ => panic!("Wrong action for {input}"),
        }
    }
}

#[test]
fn from_str_rejects_unknown_action() {
    assert!(EnkryptitTuiAction::from_str("NotAnAction").is_none());
    assert!(EnkryptitTuiAction::from_str("").is_none());
    assert!(EnkryptitTuiAction::from_str("Exit").is_none());
}
