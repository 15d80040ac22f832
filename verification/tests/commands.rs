use dialog_relay::invoker::{CompletionOutcome, close_file, dialog_extensions, requests_wake};

#[test]
fn dialog_extension_allow_list_is_fixed() {
    let exts = dialog_extensions();
    assert_eq!(exts, vec!["log", "txt"]);
}

#[test]
fn only_a_queued_message_requests_a_wake() {
    assert!(requests_wake(&CompletionOutcome::Queued));
    assert!(!requests_wake(&CompletionOutcome::Cancelled));
    assert!(!requests_wake(&CompletionOutcome::ShuttingDown));
}

#[test]
fn close_file_does_nothing() {
    close_file();
}
