use shhcrypt::{App, Command, Key, VaultError, MAX_LOGS};

#[test]
fn new_session() {
    let a = App::new();
    assert_eq!(a.logs, vec!["shhcrypt Hardening v1.1 Active".to_string()]);
    assert!(a.path.is_empty() && a.pass.is_empty());
    assert!(!a.is_pass && !a.busy);
    assert!(a.last_error.is_none());
}

#[test]
fn log_lines_are_stamped_and_capped() {
    let mut a = App::new();
    a.add_log_at("hello", "12:00:00");
    assert_eq!(a.logs.last().unwrap(), "[12:00:00] hello");
    for i in 0..150 {
        a.add_log_at(&format!("m{}", i), "t");
    }
    assert_eq!(a.logs.len(), MAX_LOGS);
    assert_eq!(a.logs[0], "[t] m50");
    assert_eq!(a.logs[MAX_LOGS - 1], "[t] m149");
}

#[test]
fn add_log_uses_clock_time() {
    let mut a = App::new();
    a.add_log("x");
    let line = a.logs.last().unwrap();
    assert!(line.starts_with('['));
    assert!(line.ends_with("] x"));
    assert_eq!(line.len(), "[00:00:00] x".len());
}

#[test]
fn set_error_logs_and_keeps_error() {
    let mut a = App::new();
    a.set_error(VaultError::FileNotFound("/nope".to_string()), "/nope");
    assert!(a.logs.last().unwrap().ends_with("] FAIL on /nope: File not found: /nope"));
    assert_eq!(a.last_error, Some(VaultError::FileNotFound("/nope".to_string())));
}

#[test]
fn clear_wipes_session() {
    let mut a = App::new();
    a.path = "p".to_string();
    a.pass = "secret".to_string();
    a.is_pass = true;
    a.last_error = Some(VaultError::CorruptedFile);
    a.clear();
    assert!(a.path.is_empty() && a.pass.is_empty());
    assert!(!a.is_pass);
    assert!(a.last_error.is_none());
    assert!(a.logs.last().unwrap().ends_with("] Session cleared."));
}

#[test]
fn typing_path_then_passphrase_then_run() {
    let mut a = App::new();
    assert_eq!(a.handle_key(Key::Enter), Command::Wait);
    assert!(!a.is_pass);
    for c in "/tmpx".chars() {
        assert_eq!(a.handle_key(Key::Char(c)), Command::Wait);
    }
    a.handle_key(Key::Backspace);
    assert_eq!(a.path, "/tmp");
    assert_eq!(a.handle_key(Key::Enter), Command::Wait);
    assert!(a.is_pass);
    assert_eq!(a.handle_key(Key::Enter), Command::Wait);
    a.handle_key(Key::Char('q'));
    a.handle_key(Key::Char('w'));
    assert_eq!(a.pass, "qw");
    assert_eq!(a.path, "/tmp");
    assert_eq!(a.handle_key(Key::Enter), Command::Run);
}

#[test]
fn quit_only_from_empty_prompt() {
    let mut a = App::new();
    assert_eq!(a.handle_key(Key::Char('q')), Command::Quit);
    a.handle_key(Key::Char('a'));
    assert_eq!(a.handle_key(Key::Char('q')), Command::Wait);
    assert_eq!(a.path, "aq");
    let mut b = App::new();
    b.busy = true;
    assert_eq!(b.handle_key(Key::Char('q')), Command::Wait);
    b.handle_key(Key::Char('z'));
    b.handle_key(Key::Backspace);
    assert!(b.path.is_empty());
}

#[test]
fn escape_clears() {
    let mut a = App::new();
    a.handle_key(Key::Char('x'));
    a.handle_key(Key::Enter);
    a.handle_key(Key::Char('y'));
    assert_eq!(a.handle_key(Key::Esc), Command::Wait);
    assert!(a.path.is_empty() && a.pass.is_empty() && !a.is_pass);
}

#[test]
fn finishing_a_run() {
    let mut a = App::new();
    a.path = "f".to_string();
    a.pass = "pw".to_string();
    a.is_pass = true;
    a.busy = true;
    a.finish_run(Ok("ENCRYPTED: f".to_string()), "f");
    assert!(a.path.is_empty() && a.pass.is_empty() && !a.is_pass && !a.busy);
    assert!(a.logs.last().unwrap().ends_with("] ENCRYPTED: f"));

    a.path = "g".to_string();
    a.pass = "pw".to_string();
    a.is_pass = true;
    a.busy = true;
    a.finish_run(Err(VaultError::DecryptionFailed), "g");
    assert_eq!(a.path, "g");
    assert!(a.pass.is_empty() && a.is_pass && !a.busy);
    assert_eq!(a.last_error, Some(VaultError::DecryptionFailed));
    assert!(a.logs.last().unwrap().ends_with("] FAIL on g: Decryption failed (Wrong key?)"));
}
