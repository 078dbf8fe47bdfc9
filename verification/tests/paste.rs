use paste_service::path::{is_plain, join};
use paste_service::{Args, PasteId};
use std::collections::HashSet;

fn base62(c: char) -> bool {
    c.is_ascii_digit() || c.is_ascii_uppercase() || c.is_ascii_lowercase()
}

#[test]
fn samples_spell_an_identifier() {
    let id = PasteId::from_samples(&[0, 9, 10, 35, 36, 61]);
    assert_eq!(id.as_str(), "09AZaz");
    let id = PasteId::from_samples(&[62, 63, 123, usize::MAX]);
    let last = "0123456789ABCDEFGHIJKLMNOPQRSTUVWXYZabcdefghijklmnopqrstuvwxyz"
        .chars()
        .nth(usize::MAX % 62)
        .unwrap();
    assert_eq!(id.as_str(), format!("01z{}", last));
    assert_eq!(PasteId::from_samples(&[]).as_str(), "");
}

#[test]
fn new_identifiers_have_the_length_asked_for() {
    for size in [0usize, 1, 2, 8, 64, 200] {
        let id = PasteId::new(size);
        assert_eq!(id.as_str().chars().count(), size);
        assert!(id.as_str().chars().all(base62));
    }
}

#[test]
fn new_identifiers_differ() {
    let a = PasteId::new(64);
    let b = PasteId::new(64);
    assert_ne!(a, b);
}

#[test]
fn short_identifiers_collide() {
    let mut seen = HashSet::new();
    let mut collided = false;
    for _ in 0..3845 {
        if !seen.insert(PasteId::new(2).as_str().to_string()) {
            collided = true;
        }
    }
    assert!(collided);
}

#[test]
fn long_identifiers_do_not_collide() {
    let mut seen = HashSet::new();
    for _ in 0..2000 {
        assert!(seen.insert(PasteId::new(64).as_str().to_string()));
    }
}

#[test]
fn identifiers_of_requests_are_checked() {
    let id = PasteId::from_param("aZ09").unwrap();
    assert_eq!(id.as_str(), "aZ09");
    assert_eq!(PasteId::from_param("").unwrap().as_str(), "");
    assert_eq!(PasteId::from_param("../etc"), Err("../etc"));
    assert_eq!(PasteId::from_param(".."), Err(".."));
    assert_eq!(PasteId::from_param("a/b"), Err("a/b"));
    assert_eq!(PasteId::from_param("a b"), Err("a b"));
    assert_eq!(PasteId::from_param("a-b"), Err("a-b"));
    assert_eq!(PasteId::from_param("a_b"), Err("a_b"));
    assert_eq!(PasteId::from_param("abc\0"), Err("abc\0"));
    assert_eq!(PasteId::from_param("ñ"), Err("ñ"));
    assert_eq!(PasteId::from_param("٣"), Err("٣"));
}

#[test]
fn a_paste_without_owner_is_stored_under_anonymous() {
    let id = PasteId::from_param("abc123").unwrap();
    assert_eq!(id.file_path("upload", &None), "upload/anonymous/abc123");
    assert_eq!(id.file_path("/srv/data", &None), "/srv/data/anonymous/abc123");
}

#[test]
fn a_paste_of_a_user_is_stored_under_the_user() {
    let id = PasteId::from_param("abc123").unwrap();
    assert_eq!(id.file_path("upload", &Some("alice".to_string())), "upload/alice/abc123");
    assert_eq!(
        id.file_path("upload", &Some("anonymous".to_string())),
        id.file_path("upload", &None)
    );
}

#[test]
fn identifiers_are_cloned() {
    let id = PasteId::from_param("abc").unwrap();
    assert_eq!(id.clone(), id);
}

#[test]
fn an_empty_root_gives_a_path_from_the_separator() {
    let id = PasteId::from_param("abc").unwrap();
    assert_eq!(id.file_path("", &None), "/anonymous/abc");
}

#[test]
fn paths_are_joined_by_a_slash() {
    assert_eq!(join("upload", "alice"), "upload/alice");
    assert_eq!(join("", "x"), "/x");
    assert_eq!(join("a/b", ""), "a/b/");
}

#[test]
fn names_that_stay_in_their_directory() {
    for name in ["alice", "anonymous", "a.b", "...", ".a", "a.", "", " ", "\\", "ñ"] {
        assert!(is_plain(name));
    }
    for name in [".", "..", "/", "a/b", "/etc", "../x", "x/..", "a/"] {
        assert!(!is_plain(name));
    }
}

#[test]
fn an_owner_of_two_dots_leads_out_of_the_root() {
    let id = PasteId::from_param("passwd").unwrap();
    let owner = Some("..".to_string());
    assert!(!is_plain(".."));
    assert_eq!(id.file_path("upload", &owner), "upload/../passwd");
}

#[test]
fn settings_without_a_command_line() {
    let args = Args::default();
    assert_eq!(args.host, "http://127.0.0.1");
    assert_eq!(args.id_length, 64);
    assert_eq!(args.upload, "upload");
    assert_eq!(args.anonymous_dir(), "upload/anonymous");
}
