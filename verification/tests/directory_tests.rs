use lnurl_settle::directory::{DirectoryError, RecipientContact, RecipientDirectory};

fn contact(name: &str, pubkey: &str) -> RecipientContact {
    RecipientContact {
        name: String::from(name),
        pubkey: String::from(pubkey),
        relays: vec![String::from("wss://relay.example.com")],
    }
}

#[test]
fn a_registered_name_resolves_to_its_contact() {
    let mut directory = RecipientDirectory::new();
    assert!(directory.register(contact("alice", "aa")).is_ok());
    assert!(directory.register(contact("bob", "bb")).is_ok());
    let alice = directory.resolve("alice").expect("alice is registered");
    assert_eq!(alice.name, "alice");
    assert_eq!(alice.pubkey, "aa");
    assert_eq!(alice.relays, vec![String::from("wss://relay.example.com")]);
    let bob = directory.resolve("bob").expect("bob is registered");
    assert_eq!(bob.pubkey, "bb");
}

#[test]
fn an_unregistered_name_does_not_resolve() {
    let mut directory = RecipientDirectory::new();
    assert!(directory.register(contact("alice", "aa")).is_ok());
    assert!(directory.resolve("bob").is_none());
    assert!(directory.resolve("").is_none());
}

#[test]
fn a_taken_name_cannot_be_registered_again() {
    let mut directory = RecipientDirectory::new();
    assert!(directory.register(contact("alice", "aa")).is_ok());
    let r = directory.register(contact("alice", "cc"));
    assert_eq!(r.unwrap_err(), DirectoryError::NameTaken);
    // The original registration is untouched.
    assert_eq!(directory.resolve("alice").unwrap().pubkey, "aa");
}
