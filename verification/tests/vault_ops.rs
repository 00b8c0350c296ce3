use passman::cli::add_checked;
use passman::entry::Entry;
use passman::vault::{entry_exists, entry_not_found, init_vault, Vault};

fn entry(name: &str, username: &str) -> Entry {
    Entry {
        name: name.to_string(),
        username: username.to_string(),
        password: format!("pw-{username}"),
        url: format!("https://{name}.example"),
        notes: String::new(),
    }
}

fn names(v: &Vault) -> Vec<String> {
    v.list().iter().map(|e| e.name.clone()).collect()
}

#[test]
fn new_vault_is_empty() {
    let v = Vault::new();
    assert!(v.list().is_empty());
    assert!(v.get("anything").is_none());
}

#[test]
fn add_keeps_insertion_order() {
    let mut v = Vault::new();
    v.add(entry("github", "alice"));
    v.add(entry("mail", "bob"));
    v.add(entry("bank", "carol"));
    assert_eq!(names(&v), vec!["github", "mail", "bank"]);
}

#[test]
fn get_ignores_case() {
    let mut v = Vault::new();
    v.add(entry("GitHub", "alice"));
    let found = v.get("GITHUB").expect("found by upper case");
    assert_eq!(found.username, "alice");
    assert_eq!(v.get("github").unwrap().name, "GitHub");
    assert!(v.get("gitlab").is_none());
}

#[test]
fn get_ignores_case_beyond_ascii() {
    let mut v = Vault::new();
    v.add(entry("Ärger", "dora"));
    assert_eq!(v.get("ÄRGER").unwrap().username, "dora");
    assert_eq!(v.get("ärger").unwrap().username, "dora");
}

#[test]
fn get_finds_the_first_of_same_names() {
    let mut v = Vault::new();
    v.add(entry("mail", "first"));
    v.add(entry("MAIL", "second"));
    assert_eq!(v.get("Mail").unwrap().username, "first");
}

#[test]
fn delete_removes_every_case_variant() {
    let mut v = Vault::new();
    v.add(entry("mail", "a"));
    v.add(entry("bank", "b"));
    v.add(entry("MAIL", "c"));
    assert!(v.delete("Mail"));
    assert_eq!(names(&v), vec!["bank"]);
    assert!(v.get("mail").is_none());
}

#[test]
fn delete_of_missing_name_changes_nothing() {
    let mut v = Vault::new();
    v.add(entry("mail", "a"));
    assert!(!v.delete("bank"));
    assert_eq!(names(&v), vec!["mail"]);
}

#[test]
fn delete_twice_removes_nothing_more() {
    let mut v = Vault::new();
    v.add(entry("mail", "a"));
    v.add(entry("bank", "b"));
    assert!(v.delete("mail"));
    assert!(!v.delete("mail"));
    assert_eq!(names(&v), vec!["bank"]);
}

#[test]
fn delete_keeps_what_other_names_find() {
    let mut v = Vault::new();
    v.add(entry("bank", "first"));
    v.add(entry("mail", "m"));
    v.add(entry("Bank", "second"));
    assert!(v.delete("mail"));
    assert_eq!(v.get("BANK").unwrap().username, "first");
}

#[test]
fn rename_changes_only_the_first_match() {
    let mut v = Vault::new();
    v.add(entry("mail", "a"));
    v.add(entry("Mail", "b"));
    assert!(v.rename("MAIL", "work mail"));
    assert_eq!(names(&v), vec!["work mail", "Mail"]);
    assert_eq!(v.get("Work Mail").unwrap().username, "a");
    assert_eq!(v.list()[0].password, "pw-a");
}

#[test]
fn rename_of_missing_name_fails() {
    let mut v = Vault::new();
    v.add(entry("mail", "a"));
    assert!(!v.rename("bank", "money"));
    assert_eq!(names(&v), vec!["mail"]);
}

#[test]
fn update_replaces_the_whole_entry() {
    let mut v = Vault::new();
    v.add(entry("mail", "a"));
    v.add(entry("bank", "b"));
    assert_eq!(v.update("MAIL", entry("post", "z")), Ok(()));
    assert_eq!(names(&v), vec!["post", "bank"]);
    assert_eq!(v.list()[0].username, "z");
}

#[test]
fn update_of_missing_name_reports_it() {
    let mut v = Vault::new();
    v.add(entry("mail", "a"));
    assert_eq!(
        v.update("bank", entry("x", "y")),
        Err("Entry 'bank' not found.".to_string())
    );
    assert_eq!(names(&v), vec!["mail"]);
}

#[test]
fn add_new_refuses_a_taken_name() {
    let mut v = Vault::new();
    assert_eq!(v.add_new(entry("mail", "a")), Ok(()));
    assert_eq!(
        v.add_new(entry("MAIL", "b")),
        Err("Entry 'MAIL' already exists.".to_string())
    );
    assert_eq!(names(&v), vec!["mail"]);
    assert_eq!(v.get("mail").unwrap().username, "a");
}

#[test]
fn add_new_then_get_finds_the_entry() {
    let mut v = Vault::new();
    v.add(entry("bank", "b"));
    assert_eq!(v.add_new(entry("Mail", "m")), Ok(()));
    assert_eq!(v.get("mail").unwrap().username, "m");
}

#[test]
fn add_checked_refuses_an_empty_name() {
    let mut v = Vault::new();
    assert_eq!(
        add_checked(&mut v, entry("", "a")),
        Err("Name cannot be empty.".to_string())
    );
    assert!(v.list().is_empty());
}

#[test]
fn add_checked_refuses_a_taken_name() {
    let mut v = Vault::new();
    assert_eq!(add_checked(&mut v, entry("mail", "a")), Ok(()));
    assert_eq!(
        add_checked(&mut v, entry("Mail", "b")),
        Err("Entry 'Mail' already exists.".to_string())
    );
    assert_eq!(names(&v), vec!["mail"]);
}

#[test]
fn messages_name_the_entry() {
    assert_eq!(entry_not_found("bank"), "Entry 'bank' not found.");
    assert_eq!(entry_exists("bank"), "Entry 'bank' already exists.");
}

#[test]
fn init_vault_refuses_an_existing_vault() {
    match init_vault(true) {
        Err(e) => assert_eq!(e, "Vault already exists. Delete it first or use 'reset-master'."),
        Ok(_) => panic!("an existing vault must not be replaced"),
    }
}

#[test]
fn init_vault_starts_empty_with_fresh_salts() {
    let (v, salt) = init_vault(false).expect("no vault yet");
    assert!(v.list().is_empty());
    let (_, other) = init_vault(false).expect("no vault yet");
    assert_ne!(salt, other);
    assert_ne!(salt, [0u8; 32]);
}
