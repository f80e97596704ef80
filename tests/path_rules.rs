use shhcrypt::{
    advance, clean_path, container_path_for, direction_of, is_container_path, is_white_space,
    success_message, temp_archive_name, archive_name, fit_head, fit_tail, Direction, ErrorKind,
    Event, Stage, VaultError,
};

#[test]
fn clean_path_trims_and_unquotes() {
    assert_eq!(clean_path("  '/tmp/my file.txt'  "), "/tmp/my file.txt");
    assert_eq!(clean_path("\"/a/b\""), "/a/b");
    assert_eq!(clean_path("\t/x/y\n"), "/x/y");
    assert_eq!(clean_path("a'b\"c"), "abc");
    assert_eq!(clean_path(""), "");
    assert_eq!(clean_path("   "), "");
    assert_eq!(clean_path("\u{3000}dir\u{a0}"), "dir");
}

#[test]
fn clean_path_trims_before_unquoting() {
    assert_eq!(clean_path("' a '"), " a ");
}

#[test]
fn white_space_matches_std() {
    for u in 0u32..0x3100 {
        if let Some(c) = char::from_u32(u) {
            assert_eq!(is_white_space(c), c.is_whitespace(), "{:x}", u);
        }
    }
}

#[test]
fn container_suffix_decides_direction() {
    assert!(is_container_path("notes.txt.shh"));
    assert!(is_container_path(".shh"));
    assert!(!is_container_path("shh"));
    assert!(!is_container_path("notes.sh"));
    assert!(!is_container_path("notes.shh.bak"));
    assert_eq!(direction_of("a.shh"), Direction::Decrypt);
    assert_eq!(direction_of("a"), Direction::Encrypt);
}

#[test]
fn names_and_messages() {
    assert_eq!(container_path_for("/tmp/dir"), "/tmp/dir.shh");
    assert_eq!(temp_archive_name(), ".shh_tmp.tar");
    assert_eq!(success_message(Direction::Encrypt, "/a"), "ENCRYPTED: /a");
    assert_eq!(success_message(Direction::Decrypt, "/a.shh"), "DECRYPTED: /a.shh");
}

#[test]
fn stages_of_a_successful_run() {
    let s = advance(Stage::Idle, Event::Start);
    assert_eq!(s, Stage::Validating);
    let s = advance(s, Event::Checked { exists: true, direction: Direction::Encrypt });
    assert_eq!(s, Stage::Encrypting);
    let s = advance(s, Event::TransformDone);
    assert_eq!(s, Stage::Erasing);
    let s = advance(s, Event::EraseDone);
    assert_eq!(s, Stage::Done);
    assert_eq!(advance(s, Event::Failure(ErrorKind::IOError)), Stage::Done);
}

#[test]
fn missing_target_fails_validation() {
    let s = advance(Stage::Validating, Event::Checked { exists: false, direction: Direction::Decrypt });
    assert_eq!(s, Stage::Failed(ErrorKind::FileNotFound));
    assert_eq!(advance(s, Event::TransformDone), s);
}

#[test]
fn erase_waits_for_transform() {
    assert_eq!(advance(Stage::Validating, Event::TransformDone), Stage::Validating);
    assert_eq!(advance(Stage::Decrypting, Event::EraseDone), Stage::Decrypting);
    assert_eq!(
        advance(Stage::Decrypting, Event::Failure(ErrorKind::DecryptionFailed)),
        Stage::Failed(ErrorKind::DecryptionFailed)
    );
    assert_eq!(
        advance(Stage::Validating, Event::Checked { exists: true, direction: Direction::Decrypt }),
        Stage::Decrypting
    );
}

#[test]
fn container_lands_beside_a_directory() {
    assert_eq!(container_path_for("dir/"), "dir.shh");
    assert_eq!(container_path_for("/a/dir//"), "/a/dir.shh");
    assert_eq!(container_path_for("file"), "file.shh");
}

#[test]
fn archive_name_is_the_final_component() {
    assert_eq!(archive_name("/tmp/notes.txt"), Ok("notes.txt".to_string()));
    assert_eq!(archive_name("dir/"), Ok("dir".to_string()));
    assert_eq!(archive_name("/"), Err(VaultError::InvalidPath));
    assert_eq!(archive_name("a/.."), Err(VaultError::InvalidPath));
    assert_eq!(archive_name(""), Err(VaultError::InvalidPath));
}

#[test]
fn text_is_fitted_to_width() {
    assert_eq!(fit_tail("/very/long/path/name", 10), "...th/name");
    assert_eq!(fit_tail("short", 10), "short");
    assert_eq!(fit_tail("abcdefghij", 10), "abcdefghij");
    assert_eq!(fit_head("[12:00:00] a long message", 12), "[12:00:00...");
    assert_eq!(fit_head("ok", 12), "ok");
    assert_eq!(fit_tail("ééééé", 4), "...é");
}
