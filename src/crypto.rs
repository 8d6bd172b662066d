//! Randomness, HMAC, key derivation and authenticated encryption from outside crates.

use vstd::prelude::*;
use vstd::utf8::*;

use bitcoin::hashes::hmac::{Hmac, HmacEngine};
use bitcoin::hashes::{sha512, Hash as HashTrait, HashEngine};
use chacha20poly1305::aead::{Aead, KeyInit};
use chacha20poly1305::ChaCha20Poly1305;
use rand::rngs::OsRng;
use rand::{RngCore, SeedableRng};
use rand_chacha::ChaCha20Rng;
use rand_hc::Hc128Rng;

verus! {

/// HMAC-SHA512 of `msg` under `key`.
pub uninterp spec fn hmac_sha512_of(key: Seq<u8>, msg: Seq<u8>) -> Seq<u8>;

/// The 32-byte Argon2id key (default parameters) of a password and a salt.
pub uninterp spec fn argon2id_of(password: Seq<u8>, salt: Seq<u8>) -> Seq<u8>;

/// ChaCha20-Poly1305 ciphertext-and-tag of a plaintext under a key and a nonce.
pub uninterp spec fn aead_seal_of(key: Seq<u8>, nonce: Seq<u8>, plaintext: Seq<u8>) -> Seq<u8>;

/// Relies on `rand::rngs::OsRng::fill_bytes`: `n` bytes from the operating system's generator.
#[verifier::external_body]
pub(crate) fn os_random_bytes(n: usize) -> (r: Vec<u8>)
    ensures
        r@.len() == n,
{
    let mut buf = vec![0u8; n];
    OsRng.fill_bytes(&mut buf);
    buf
}

/// Relies on `rand_hc::Hc128Rng::from_entropy` and its `fill_bytes`: 32 bytes of
/// an HC-128 stream seeded from the operating system.
#[verifier::external_body]
pub(crate) fn hc128_random_bytes() -> (r: Vec<u8>)
    ensures
        r@.len() == 32,
{
    let mut buf = vec![0u8; 32];
    Hc128Rng::from_entropy().fill_bytes(&mut buf);
    buf
}

/// Relies on `rand_chacha::ChaCha20Rng::from_entropy` and its `fill_bytes`: 32
/// bytes of a ChaCha20 stream seeded from the operating system.
#[verifier::external_body]
pub(crate) fn chacha20_random_bytes() -> (r: Vec<u8>)
    ensures
        r@.len() == 32,
{
    let mut buf = vec![0u8; 32];
    ChaCha20Rng::from_entropy().fill_bytes(&mut buf);
    buf
}

/// Relies on `bitcoin::hashes::hmac::Hmac::<sha512::Hash>`: the 64-byte HMAC-SHA512.
#[verifier::external_body]
pub(crate) fn hmac_sha512(key: &[u8], msg: &[u8]) -> (r: Vec<u8>)
    ensures
        r@ == hmac_sha512_of(key@, msg@),
        r@.len() == 64,
{
    let mut engine = HmacEngine::<sha512::Hash>::new(key);
    engine.input(msg);
    Hmac::<sha512::Hash>::from_engine(engine).into_inner().to_vec()
}

/// Relies on `argon2::Argon2::hash_password_into` with the default Argon2id
/// parameters: it fails only for a password over `u32::MAX` bytes or a salt
/// under 8 bytes.
#[verifier::external_body]
pub(crate) fn argon2id(password: &[u8], salt: &[u8]) -> (r: Option<Vec<u8>>)
    ensures
        r matches Some(k) ==> k@ == argon2id_of(password@, salt@) && k@.len() == 32,
        password@.len() <= 0xFFFF_FFFF && 8 <= salt@.len() <= 0xFFFF_FFFF ==> r is Some,
{
    let mut key = vec![0u8; 32];
    match argon2::Argon2::default().hash_password_into(password, salt, &mut key) {
        Ok(()) => Some(key),
        Err(_) => None,
    }
}

/// Relies on `ChaCha20Poly1305::encrypt` with a 32-byte key and a 12-byte
/// nonce: it fails only from `u32::MAX` blocks of 64 bytes on, far above
/// `0xF_FFFF_FFFF` bytes.
#[verifier::external_body]
pub(crate) fn aead_seal(key: &[u8], nonce: &[u8], plaintext: &[u8]) -> (r: Option<Vec<u8>>)
    requires
        key@.len() == 32,
        nonce@.len() == 12,
    ensures
        r matches Some(c) ==> c@ == aead_seal_of(key@, nonce@, plaintext@),
        plaintext@.len() <= 0xF_FFFF_FFFF ==> r is Some,
{
    let cipher = ChaCha20Poly1305::new(chacha20poly1305::Key::from_slice(key));
    cipher.encrypt(chacha20poly1305::Nonce::from_slice(nonce), plaintext).ok()
}

/// Relies on `ChaCha20Poly1305::decrypt`: it returns the plaintext exactly when
/// the ciphertext-and-tag is the sealing of that plaintext under the same key
/// and nonce, and fails otherwise.
#[verifier::external_body]
pub(crate) fn aead_open(key: &[u8], nonce: &[u8], ciphertext: &[u8]) -> (r: Option<Vec<u8>>)
    requires
        key@.len() == 32,
        nonce@.len() == 12,
    ensures
        r matches Some(p) ==> ciphertext@ == aead_seal_of(key@, nonce@, p@),
        forall|p: Seq<u8>|
            ciphertext@ == #[trigger] aead_seal_of(key@, nonce@, p) ==> (r is Some && r->0@ == p),
{
    let cipher = ChaCha20Poly1305::new(chacha20poly1305::Key::from_slice(key));
    cipher.decrypt(chacha20poly1305::Nonce::from_slice(nonce), ciphertext).ok()
}

/// Relies on `String::from_utf8`: it succeeds exactly on valid UTF-8 and then
/// holds the characters that the bytes encode.
#[verifier::external_body]
pub(crate) fn string_from_utf8(bytes: Vec<u8>) -> (r: Option<String>)
    ensures
        r is Some <==> valid_utf8(bytes@),
        r matches Some(s) ==> s@ == decode_utf8(bytes@),
{
    String::from_utf8(bytes).ok()
}

} // verus!
