//! Scripted answers for the terminal interface.

use eck::errors::EnkryptitError;
use eck::frontend::TuiInput;
use eck::mock_input::MockTuiInput;

#[test]
fn answers_come_in_queue_order() {
    let mut input = MockTuiInput::new()
        .with_select("Change parallelism type")
        .with_select("MultiThread")
        .with_counter(6)
        .with_text("secret")
        .with_select("Back to main menu");
    assert_eq!(input.pending_selects(), 3);
    assert_eq!(input.pending_texts(), 1);
    assert_eq!(input.select("q", &[]), Ok("Change parallelism type".to_string()));
    assert_eq!(input.select("q", &["a", "b"]), Ok("MultiThread".to_string()));
    assert_eq!(input.custom_counter("n"), Ok(6));
    assert_eq!(input.text("t", "h"), Ok("secret".to_string()));
    assert_eq!(input.select("q", &[]), Ok("Back to main menu".to_string()));
    assert_eq!(input.pending_selects(), 0);
    assert_eq!(input.pending_texts(), 0);
}

#[test]
fn exhausted_queues() {
    let mut input = MockTuiInput::new();
    assert_eq!(input.select("q", &[]), Err(EnkryptitError::CommandNotFound));
    assert_eq!(input.text("t", "h"), Err(EnkryptitError::CommandNotFound));
    assert_eq!(input.custom_counter("n"), Err(EnkryptitError::CommandNotFound));
    assert!(input.pick_files("f").is_empty());
    assert!(input.pick_folders("d").is_empty());
}

#[test]
fn picks_come_in_queue_order() {
    let mut input = MockTuiInput::new()
        .with_files(vec!["/a", "/b"])
        .with_files(vec![])
        .with_folders(vec!["/dir"]);
    assert_eq!(input.pending_files(), 2);
    assert_eq!(input.pending_folders(), 1);
    assert_eq!(input.pick_files("f"), vec!["/a".to_string(), "/b".to_string()]);
    assert_eq!(input.pending_files(), 1);
    assert!(input.pick_files("f").is_empty());
    assert_eq!(input.pending_files(), 0);
    assert_eq!(input.pick_folders("d"), vec!["/dir".to_string()]);
    assert_eq!(input.pending_folders(), 0);
}
