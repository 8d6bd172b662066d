use keechain::codec::{decrypt, decrypt_record, encrypt, encrypt_record, encrypt_with};
use keechain::error::Error;
use keechain::seed::{Mnemonic, Seed};

const ABANDON: &str = "abandon abandon abandon abandon abandon abandon abandon abandon abandon abandon abandon about";

fn seed(passphrase: Option<&str>) -> Seed {
    Seed::new(Mnemonic::parse(ABANDON).unwrap(), passphrase.map(String::from)).unwrap()
}

#[test]
fn parse_accepts_a_valid_phrase() {
    let m = Mnemonic::parse(ABANDON).unwrap();
    assert_eq!(m.as_str(), ABANDON);
}

#[test]
fn parse_writes_the_canonical_phrase() {
    let m = Mnemonic::parse("abandon  abandon abandon abandon abandon abandon abandon abandon abandon abandon abandon about").unwrap();
    assert_eq!(m.as_str(), ABANDON);
}

#[test]
fn parse_rejects_a_bad_checksum() {
    let r = Mnemonic::parse("abandon abandon abandon abandon abandon abandon abandon abandon abandon abandon abandon abandon");
    assert_eq!(r.unwrap_err(), Error::InvalidMnemonic);
}

#[test]
fn parse_rejects_unknown_words() {
    assert_eq!(Mnemonic::parse("hello world").unwrap_err(), Error::InvalidMnemonic);
}

#[test]
fn from_entropy_of_zero_bytes() {
    let m = Mnemonic::from_entropy(&[0u8; 16]).unwrap();
    assert_eq!(m.as_str(), ABANDON);
}

#[test]
fn from_entropy_word_counts() {
    assert_eq!(Mnemonic::from_entropy(&[7u8; 24]).unwrap().as_str().split(' ').count(), 18);
    assert_eq!(Mnemonic::from_entropy(&[7u8; 32]).unwrap().as_str().split(' ').count(), 24);
}

#[test]
fn from_entropy_rejects_bad_lengths() {
    assert_eq!(Mnemonic::from_entropy(&[0u8; 17]).unwrap_err(), Error::InvalidEntropy);
    assert_eq!(Mnemonic::from_entropy(&[0u8; 12]).unwrap_err(), Error::InvalidEntropy);
    assert_eq!(Mnemonic::from_entropy(&[0u8; 36]).unwrap_err(), Error::InvalidEntropy);
}

#[test]
fn seed_bytes_layout() {
    let s = seed(None);
    let b = s.to_bytes();
    assert_eq!(&b[0..4], &[0, 0, 0, ABANDON.len() as u8]);
    assert_eq!(&b[4..4 + ABANDON.len()], ABANDON.as_bytes());
    assert_eq!(b[4 + ABANDON.len()], 0);
    assert_eq!(b.len(), 5 + ABANDON.len());
}

#[test]
fn seed_bytes_round_trip() {
    for p in [None, Some(""), Some("TREZOR"), Some("pässphrase ✓")] {
        let s = seed(p);
        let back = Seed::from_bytes(&s.to_bytes()).unwrap();
        assert_eq!(back, s);
        assert_eq!(back.passphrase(), p);
    }
}

#[test]
fn seed_from_bytes_rejects_garbage() {
    assert!(Seed::from_bytes(&[]).is_none());
    assert!(Seed::from_bytes(&[0, 0, 0, 9, 1, 2]).is_none());
    let mut b = seed(None).to_bytes();
    b.push(7);
    assert!(Seed::from_bytes(&b).is_none());
    let mut c = seed(None).to_bytes();
    let n = c.len();
    c[n - 1] = 2;
    assert!(Seed::from_bytes(&c).is_none());
}

#[test]
fn encrypt_then_decrypt_gives_the_seed() {
    let s = seed(Some("extra"));
    let file = encrypt(&s, "pw1").unwrap();
    assert_eq!(file[0], 1);
    assert_eq!(decrypt("pw1", &file).unwrap(), s);
}

#[test]
fn decrypt_with_another_password_fails() {
    let s = seed(None);
    let file = encrypt(&s, "pw1").unwrap();
    assert_eq!(decrypt("pw2", &file).unwrap_err(), Error::AuthenticationFailed);
    assert_eq!(decrypt("", &file).unwrap_err(), Error::AuthenticationFailed);
}

#[test]
fn decrypt_rejects_tampering() {
    let s = seed(None);
    let mut file = encrypt(&s, "pw1").unwrap();
    let last = file.len() - 1;
    file[last] ^= 1;
    assert_eq!(decrypt("pw1", &file).unwrap_err(), Error::AuthenticationFailed);
    assert_eq!(decrypt("pw1", &file[..10]).unwrap_err(), Error::AuthenticationFailed);
}

#[test]
fn encrypt_rejects_an_empty_password() {
    assert_eq!(encrypt(&seed(None), "").unwrap_err(), Error::InvalidPassword);
}

#[test]
fn encrypt_with_is_deterministic_and_salted() {
    let s = seed(None);
    let a = encrypt_with(&s, "pw", &[1u8; 16], &[2u8; 12]).unwrap();
    let b = encrypt_with(&s, "pw", &[1u8; 16], &[2u8; 12]).unwrap();
    let c = encrypt_with(&s, "pw", &[3u8; 16], &[2u8; 12]).unwrap();
    assert_eq!(a, b);
    assert_ne!(a, c);
    assert_eq!(&a[1..17], &[1u8; 16]);
    assert_eq!(&a[17..29], &[2u8; 12]);
    assert_eq!(decrypt("pw", &c).unwrap(), s);
}

#[test]
fn two_encryptions_use_fresh_salt_and_nonce() {
    let s = seed(None);
    let a = encrypt(&s, "pw").unwrap();
    let b = encrypt(&s, "pw").unwrap();
    assert_ne!(a, b);
}

#[test]
fn records_carry_the_saved_passphrases() {
    let s = seed(Some("p"));
    let saved = vec!["one".to_string(), "".to_string(), "drei ✓".to_string()];
    let file = encrypt_record(&s, &saved, "pw").unwrap();
    let (back, list) = decrypt_record("pw", &file).unwrap();
    assert_eq!(back, s);
    assert_eq!(list, saved);
    assert_eq!(decrypt("pw", &file).unwrap(), s);
    assert_eq!(decrypt_record("wrong", &file).err(), Some(Error::AuthenticationFailed));
    assert_eq!(encrypt_record(&s, &saved, "").err(), Some(Error::InvalidPassword));
}

#[test]
fn list_layout_round_trip() {
    use_list_codec();
}

fn use_list_codec() {
    let l = vec!["ab".to_string(), "ü".to_string()];
    let b = keechain::record::list_to_bytes(&l);
    assert_eq!(b, vec![0, 0, 0, 2, b'a', b'b', 0, 0, 0, 2, 0xc3, 0xbc]);
    assert_eq!(keechain::record::list_from_bytes(&b).unwrap(), l);
    assert!(keechain::record::list_from_bytes(&b[..5]).is_none());
    assert_eq!(keechain::record::list_from_bytes(&[]).unwrap(), Vec::<String>::new());
}
