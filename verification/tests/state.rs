use gitshift::account::{accounts_from_parsed, Account};
use gitshift::error::GitShiftError;
use gitshift::state::{load_state, save_state, state_from_parsed, text_from_rendered};

#[test]
fn missing_state_file_means_no_active_account() {
    assert_eq!(load_state(None).unwrap(), None);
}

#[test]
fn state_file_holds_a_string_or_null() {
    assert_eq!(load_state(Some("null")).unwrap(), None);
    assert_eq!(load_state(Some("\"home\"")).unwrap(), Some("home".to_string()));
    assert_eq!(load_state(Some("  \"a b\"\n")).unwrap(), Some("a b".to_string()));
    assert_eq!(load_state(Some("\"q\\\"t\"")).unwrap(), Some("q\"t".to_string()));
}

#[test]
fn unparsable_state_file_is_a_corrupt_store() {
    for text in ["", "{", "home", "12", "[\"home\"]", "\"home\" x"] {
        let r = load_state(Some(text));
        assert!(matches!(r, Err(GitShiftError::CorruptStore(ref what)) if what == "state file"));
    }
    let e = load_state(Some("{")).unwrap_err();
    assert_eq!(e.message(), "Failed to parse state file");
}

#[test]
fn state_text_is_json() {
    assert_eq!(save_state(&None).unwrap(), "null");
    assert_eq!(save_state(&Some("home".to_string())).unwrap(), "\"home\"");
    assert_eq!(save_state(&Some("q\"t".to_string())).unwrap(), "\"q\\\"t\"");
}

#[test]
fn saving_the_activation_succeeds() {
    assert!(save_state(&None).is_ok());
    assert!(save_state(&Some(String::new())).is_ok());
    assert!(save_state(&Some("\u{0}\u{7f}\u{1F511}".to_string())).is_ok());
}

#[test]
fn saved_state_loads_back() {
    for active in [None, Some("home".to_string()), Some("".to_string()), Some("a\n\"b\\".to_string())] {
        let text = save_state(&active).unwrap();
        assert_eq!(load_state(Some(&text)).unwrap(), active);
    }
}

#[test]
fn reader_and_writer_failures_are_mapped() {
    let failure = serde_json::from_str::<Option<String>>("{").unwrap_err();
    let r = state_from_parsed(Err(failure));
    assert!(matches!(r, Err(GitShiftError::CorruptStore(ref what)) if what == "state file"));
    assert_eq!(state_from_parsed(Ok(Some("x".to_string()))).unwrap(), Some("x".to_string()));
    let failure = serde_json::from_str::<Option<String>>("{").unwrap_err();
    let r = text_from_rendered(Err(failure), "no luck");
    assert!(matches!(r, Err(GitShiftError::Io(ref d)) if d == "no luck"));
    assert_eq!(text_from_rendered(Ok("t".to_string()), "no luck").unwrap(), "t");
}

#[test]
fn missing_accounts_file_is_an_empty_store() {
    assert!(accounts_from_parsed(None).unwrap().is_empty());
}

#[test]
fn unparsable_accounts_file_is_a_corrupt_store() {
    let failure = serde_json::from_str::<Vec<String>>("[").unwrap_err();
    let r = accounts_from_parsed(Some(Err(failure)));
    assert!(matches!(r, Err(GitShiftError::CorruptStore(ref what)) if what == "config file"));
}

#[test]
fn parsed_accounts_keep_their_order() {
    let accounts = vec![
        Account {
            name: "work".to_string(),
            ssh_key_path: "/k/work_id".to_string(),
            email: "w@x.com".to_string(),
            public_key: "ssh-ed25519 AAAA w@x.com".to_string(),
        },
        Account {
            name: "home".to_string(),
            ssh_key_path: "/k/home_id".to_string(),
            email: "h@x.com".to_string(),
            public_key: "ssh-ed25519 BBBB h@x.com".to_string(),
        },
    ];
    let store = accounts_from_parsed(Some(Ok(accounts))).unwrap();
    assert_eq!(store.len(), 2);
    assert_eq!(store[0].name, "work");
    assert_eq!(store[1].name, "home");
    assert_eq!(store[1].ssh_key_path, "/k/home_id");
    let copy = store[0].clone();
    assert_eq!(copy.email, "w@x.com");
    assert_eq!(copy.public_key, "ssh-ed25519 AAAA w@x.com");
}
