use keechain::entropy::HostEntropy;
use keechain::error::Error;
use keechain::keychain::{change_password, generate, identity, open, open_keychain, rename, restore, save_keychain, wipe, Keychain};
use keechain::types::Network;
use keechain::seed::{Mnemonic, Seed};
use keechain::store::KeychainStore;
use keechain::types::WordCount;

const ABANDON: &str = "abandon abandon abandon abandon abandon abandon abandon abandon abandon abandon abandon about";

fn host() -> HostEntropy {
    HostEntropy::TimestampOnly { nanos: 1_700_000_000_000_000_000 }
}

#[test]
fn generate_then_open() {
    let mut store = KeychainStore::new();
    let seed = generate(&mut store, "alice", "pw1", WordCount::W24, None, &host(), None).unwrap();
    let phrase = seed.mnemonic().as_str().to_string();
    assert_eq!(phrase.split(' ').count(), 24);
    assert_eq!(seed.mnemonic().word_count(), 24);
    assert_eq!(seed.passphrase(), None);
    assert!(Mnemonic::parse(&phrase).is_ok());
    assert_eq!(open(&store, "alice", "wrongpw").unwrap_err(), Error::AuthenticationFailed);
    let opened = open(&store, "alice", "pw1").unwrap();
    assert_eq!(opened.mnemonic().as_str(), phrase);
    assert_eq!(opened, seed);
}

#[test]
fn rename_then_open() {
    let mut store = KeychainStore::new();
    let seed = restore(&mut store, "alice", "pw1", ABANDON, None).unwrap();
    rename(&mut store, "alice", "bob").unwrap();
    assert_eq!(open(&store, "alice", "pw1").unwrap_err(), Error::NotFound);
    assert_eq!(open(&store, "bob", "pw1").unwrap(), seed);
}

#[test]
fn wipe_then_open() {
    let mut store = KeychainStore::new();
    restore(&mut store, "alice", "pw1", ABANDON, None).unwrap();
    wipe(&mut store, "alice");
    assert_eq!(open(&store, "alice", "pw1").unwrap_err(), Error::NotFound);
    assert_eq!(open(&store, "alice", "anything").unwrap_err(), Error::NotFound);
    assert!(store.list().is_empty());
}

#[test]
fn generate_rejects_a_taken_name_and_an_empty_password() {
    let mut store = KeychainStore::new();
    restore(&mut store, "alice", "pw1", ABANDON, None).unwrap();
    let r = generate(&mut store, "alice", "pw2", WordCount::W12, None, &host(), None);
    assert_eq!(r.unwrap_err(), Error::AlreadyExists);
    let r = generate(&mut store, "carol", "", WordCount::W12, None, &host(), None);
    assert_eq!(r.unwrap_err(), Error::InvalidPassword);
    assert_eq!(store.list(), vec!["alice".to_string()]);
}

#[test]
fn generate_word_counts_and_custom_entropy() {
    let mut store = KeychainStore::new();
    let a = generate(&mut store, "a", "pw", WordCount::W12, Some("x".to_string()), &host(), Some(&[1, 2, 3])).unwrap();
    assert_eq!(a.mnemonic().as_str().split(' ').count(), 12);
    assert_eq!(a.passphrase(), Some("x"));
    let b = generate(&mut store, "b", "pw", WordCount::W18, None, &host(), None).unwrap();
    assert_eq!(b.mnemonic().as_str().split(' ').count(), 18);
    assert_ne!(a.mnemonic().as_str(), b.mnemonic().as_str());
}

#[test]
fn restore_validates_the_phrase() {
    let mut store = KeychainStore::new();
    let r = restore(&mut store, "alice", "pw1", "abandon abandon abandon", None);
    assert_eq!(r.unwrap_err(), Error::InvalidMnemonic);
    assert!(!store.contains("alice"));
    let r = restore(&mut store, "alice", "", ABANDON, None);
    assert_eq!(r.unwrap_err(), Error::InvalidPassword);
}

#[test]
fn restore_keeps_the_passphrase() {
    let mut store = KeychainStore::new();
    let seed = restore(&mut store, "alice", "pw1", ABANDON, Some("TREZOR".to_string())).unwrap();
    let opened = open(&store, "alice", "pw1").unwrap();
    assert_eq!(opened.passphrase(), Some("TREZOR"));
    assert_eq!(opened, seed);
}

#[test]
fn change_password_replaces_the_file() {
    let mut store = KeychainStore::new();
    let seed = restore(&mut store, "alice", "pw1", ABANDON, None).unwrap();
    let k = open_keychain(&store, "alice", "pw1").unwrap();
    change_password(&mut store, &k, "pw2").unwrap();
    assert_eq!(open(&store, "alice", "pw1").unwrap_err(), Error::AuthenticationFailed);
    assert_eq!(open(&store, "alice", "pw2").unwrap(), seed);
    assert_eq!(change_password(&mut store, &k, "").unwrap_err(), Error::InvalidPassword);
    let other = Keychain::new("nobody".to_string(), Seed::new(Mnemonic::parse(ABANDON).unwrap(), None).unwrap());
    assert_eq!(change_password(&mut store, &other, "pw3").unwrap_err(), Error::NotFound);
}

#[test]
fn saved_passphrases_persist() {
    let mut store = KeychainStore::new();
    let seed = restore(&mut store, "alice", "pw1", ABANDON, None).unwrap();
    let mut k = open_keychain(&store, "alice", "pw1").unwrap();
    assert_eq!(k.name, "alice");
    assert!(k.saved_passphrases.is_empty());
    k.add_passphrase("one");
    k.add_passphrase("two");
    save_keychain(&mut store, &k, "pw1").unwrap();
    let mut again = open_keychain(&store, "alice", "pw1").unwrap();
    assert_eq!(again.saved_passphrases, vec!["one".to_string(), "two".to_string()]);
    assert_eq!(again.seed, seed);
    assert_eq!(open(&store, "alice", "pw1").unwrap(), seed);
    again.remove_passphrase("one");
    save_keychain(&mut store, &again, "pw1").unwrap();
    assert_eq!(open_keychain(&store, "alice", "pw1").unwrap().saved_passphrases, vec!["two".to_string()]);
    assert_eq!(open_keychain(&store, "alice", "nope").err(), Some(Error::AuthenticationFailed));
    assert_eq!(open_keychain(&store, "bob", "pw1").err(), Some(Error::NotFound));
}

#[test]
fn rename_errors() {
    let mut store = KeychainStore::new();
    restore(&mut store, "alice", "pw1", ABANDON, None).unwrap();
    restore(&mut store, "bob", "pw1", ABANDON, None).unwrap();
    assert_eq!(rename(&mut store, "carol", "dave").unwrap_err(), Error::NotFound);
    assert_eq!(rename(&mut store, "alice", "bob").unwrap_err(), Error::AlreadyExists);
    assert!(store.contains("alice") && store.contains("bob"));
}

#[test]
fn store_operations() {
    let mut store = KeychainStore::new();
    store.create_exclusive("a", vec![1]).unwrap();
    assert_eq!(store.create_exclusive("a", vec![2]).unwrap_err(), Error::AlreadyExists);
    assert_eq!(store.read("a").unwrap(), &[1]);
    store.replace("a", vec![3]).unwrap();
    assert_eq!(store.read("a").unwrap(), &[3]);
    assert_eq!(store.replace("b", vec![4]).unwrap_err(), Error::NotFound);
    assert_eq!(store.read("b").unwrap_err(), Error::NotFound);
    store.create_exclusive("b", vec![5]).unwrap();
    let mut names = store.list();
    names.sort();
    assert_eq!(names, vec!["a".to_string(), "b".to_string()]);
    store.delete("a");
    store.delete("zzz");
    assert_eq!(store.list(), vec!["b".to_string()]);
}

#[test]
fn saved_and_active_passphrases() {
    let seed = Seed::new(Mnemonic::parse(ABANDON).unwrap(), None).unwrap();
    let mut k = Keychain::new("alice".to_string(), seed);
    k.add_passphrase("one");
    k.add_passphrase("two");
    k.add_passphrase("one");
    assert_eq!(k.saved_passphrases, vec!["one".to_string(), "two".to_string()]);
    k.remove_passphrase("one");
    assert_eq!(k.saved_passphrases, vec!["two".to_string()]);
    k.remove_passphrase("absent");
    assert_eq!(k.saved_passphrases, vec!["two".to_string()]);
    k.apply_passphrase(Some("two".to_string()));
    assert_eq!(k.active_passphrase.as_deref(), Some("two"));
    assert_eq!(k.seed.passphrase(), None);
}

#[test]
fn identity_and_derive_from_the_store() {
    let mut store = KeychainStore::new();
    restore(&mut store, "alice", "pw1", ABANDON, None).unwrap();
    assert_eq!(identity(&store, "alice", "pw1", Network::Bitcoin).unwrap(), [0x73, 0xc5, 0xda, 0x0a]);
    assert_eq!(identity(&store, "alice", "bad", Network::Bitcoin).unwrap_err(), Error::AuthenticationFailed);
    assert_eq!(identity(&store, "bob", "pw1", Network::Bitcoin).unwrap_err(), Error::NotFound);
    let a = keechain::keychain::derive(&store, "alice", "pw1", Network::Bitcoin, WordCount::W12, 3).unwrap();
    let b = keechain::keychain::derive(&store, "alice", "pw1", Network::Bitcoin, WordCount::W12, 3).unwrap();
    let c = keechain::keychain::derive(&store, "alice", "pw1", Network::Bitcoin, WordCount::W12, 4).unwrap();
    assert_eq!(a, b);
    assert_ne!(a, c);
    assert_eq!(a.word_count(), 12);
    assert_eq!(keechain::keychain::derive(&store, "alice", "pw1", Network::Bitcoin, WordCount::W12, 0x8000_0000).unwrap_err(), Error::InvalidIndex);
    assert_eq!(keechain::keychain::derive(&store, "alice", "bad", Network::Bitcoin, WordCount::W12, 1).unwrap_err(), Error::AuthenticationFailed);
    assert_eq!(keechain::keychain::derive(&store, "bob", "pw1", Network::Bitcoin, WordCount::W12, 1).unwrap_err(), Error::NotFound);
}
