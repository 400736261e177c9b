use file_encryptor::history::{CryptoAction, FileCryptoApp, status_label};

#[test]
fn new_session_renders_no_history_message() {
    let app = FileCryptoApp::new();
    let lines = app.render_lines();
    assert_eq!(
        lines,
        vec!["No history yet. Try encrypting or decrypting a file first.".to_string()]
    );
}

#[test]
fn new_session_summary_is_zero() {
    let app = FileCryptoApp::new();
    let summary = app.summarize();
    assert_eq!(summary.encrypted_count, 0);
    assert_eq!(summary.decrypted_count, 0);
}

#[test]
fn summary_counts_failed_attempts_too() {
    let mut app = FileCryptoApp::new();
    app.add_history_entry("plain.txt".to_string(), CryptoAction::Encrypt, true);
    app.add_history_entry("cipher.bin".to_string(), CryptoAction::Decrypt, false);
    let summary = app.summarize();
    assert_eq!(summary.encrypted_count, 1);
    assert_eq!(summary.decrypted_count, 1);
}

#[test]
fn failed_read_leaves_one_failed_encrypt_entry() {
    let mut app = FileCryptoApp::new();
    app.add_history_entry("missing.txt".to_string(), CryptoAction::Encrypt, false);
    let lines = app.render_lines();
    assert_eq!(lines, vec!["1. [Encrypt] missing.txt -> Failed".to_string()]);
    let summary = app.summarize();
    assert_eq!(summary.encrypted_count, 1);
    assert_eq!(summary.decrypted_count, 0);
}

#[test]
fn render_lines_are_ordered_and_one_indexed() {
    let mut app = FileCryptoApp::new();
    app.add_history_entry("a.txt".to_string(), CryptoAction::Encrypt, true);
    app.add_history_entry("b.txt".to_string(), CryptoAction::Decrypt, true);
    app.add_history_entry("c.txt".to_string(), CryptoAction::Decrypt, false);
    let lines = app.render_lines();
    assert_eq!(
        lines,
        vec![
            "1. [Encrypt] a.txt -> Success".to_string(),
            "2. [Decrypt] b.txt -> Success".to_string(),
            "3. [Decrypt] c.txt -> Failed".to_string(),
        ]
    );
}

#[test]
fn labels_match_display_text() {
    assert_eq!(CryptoAction::Encrypt.label(), "Encrypt");
    assert_eq!(CryptoAction::Decrypt.label(), "Decrypt");
    assert_eq!(status_label(true), "Success");
    assert_eq!(status_label(false), "Failed");
}
