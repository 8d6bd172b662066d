//! The encrypted keychain container: Argon2id key, ChaCha20-Poly1305 sealing,
//! and a versioned header.

use vstd::prelude::*;
use vstd::utf8::*;

use crate::bytes::copy_range;
use crate::crypto::{aead_open, aead_seal, aead_seal_of, argon2id, argon2id_of, os_random_bytes};
use crate::error::Error;
use crate::record::{list_fits, record_from_bytes, record_to_bytes, serialize_record, string_views};
use crate::seed::{valid_phrase, fits, Seed, SeedView};

verus! {

/// Version byte at the head of every keychain file.
pub const FORMAT_VERSION: u8 = 1;

/// Bytes of the Argon2id salt.
pub const SALT_LEN: usize = 16;

/// Bytes of the ChaCha20-Poly1305 nonce.
pub const NONCE_LEN: usize = 12;

/// Version, salt and nonce: the bytes before the ciphertext.
pub const HEADER_LEN: usize = 29;

/// A usable password: not empty, and at most `u32::MAX` bytes of UTF-8.
pub open spec fn valid_password(password: Seq<char>) -> bool {
    0 < encode_utf8(password).len() <= 0xFFFF_FFFF
}

/// The symmetric key of a password and a salt.
pub open spec fn file_key(password: Seq<char>, salt: Seq<u8>) -> Seq<u8> {
    argon2id_of(encode_utf8(password), salt)
}

/// A keychain file: version, salt, nonce, then the sealed record of the seed
/// and its saved passphrases.
pub open spec fn sealed_record(
    password: Seq<char>,
    salt: Seq<u8>,
    nonce: Seq<u8>,
    v: SeedView,
    saved: Seq<Seq<char>>,
) -> Seq<u8> {
    seq![FORMAT_VERSION] + salt + nonce + aead_seal_of(file_key(password, salt), nonce, serialize_record(v, saved))
}

/// A keychain file of a seed with no saved passphrases.
pub open spec fn sealed_file(password: Seq<char>, salt: Seq<u8>, nonce: Seq<u8>, v: SeedView) -> Seq<u8> {
    sealed_record(password, salt, nonce, v, Seq::<Seq<char>>::empty())
}

pub open spec fn file_salt(bytes: Seq<u8>) -> Seq<u8> {
    bytes.subrange(1, 17)
}

pub open spec fn file_nonce(bytes: Seq<u8>) -> Seq<u8> {
    bytes.subrange(17, 29)
}

/// `bytes` is the file that sealing the seed `v` with the saved passphrases
/// `saved` under `password` produces, with the salt and nonce it carries.
pub open spec fn decrypts_record(password: Seq<char>, bytes: Seq<u8>, v: SeedView, saved: Seq<Seq<char>>) -> bool {
    &&& bytes.len() >= HEADER_LEN
    &&& valid_password(password)
    &&& valid_phrase(v.0)
    &&& fits(v)
    &&& list_fits(saved)
    &&& bytes == sealed_record(password, file_salt(bytes), file_nonce(bytes), v, saved)
}

/// `bytes` is a file of the seed `v` under `password`, whatever passphrases it saves.
pub open spec fn decrypts_to(password: Seq<char>, bytes: Seq<u8>, v: SeedView) -> bool {
    exists|saved: Seq<Seq<char>>| #[trigger] decrypts_record(password, bytes, v, saved)
}

/// A record fits the container: its passphrases fit the layout, and the
/// whole plaintext is at most `0xF_FFFF_FFFF` bytes.
pub open spec fn record_fits(v: SeedView, saved: Seq<Seq<char>>) -> bool {
    list_fits(saved) && serialize_record(v, saved).len() <= 0xF_FFFF_FFFF
}

fn all_fit(saved: &Vec<String>) -> (r: bool)
    ensures
        r == list_fits(string_views(saved@)),
{
    let mut i: usize = 0;
    while i < saved.len()
        invariant
            i <= saved@.len(),
            forall|j: int| 0 <= j < i ==> #[trigger] encode_utf8(string_views(saved@)[j]).len() <= 0xFFFF_FFFF,
        decreases saved@.len() - i,
    {
        if saved[i].as_str().as_bytes().len() > 0xFFFF_FFFF {
            assert(encode_utf8(string_views(saved@)[i as int]).len() > 0xFFFF_FFFF);
            return false;
        }
        i += 1;
    }
    true
}

/// Encrypts a seed and its saved passphrases under a password with a given
/// salt and nonce. `InvalidPassword` for an empty or over-long password, else
/// `InvalidPassphrase` when the record does not fit.
pub fn encrypt_record_with(
    seed: &Seed,
    saved: &Vec<String>,
    password: &str,
    salt: &[u8],
    nonce: &[u8],
) -> (r: Result<Vec<u8>, Error>)
    requires
        salt@.len() == SALT_LEN,
        nonce@.len() == NONCE_LEN,
    ensures
        !valid_password(password@) ==> r == Err::<Vec<u8>, Error>(Error::InvalidPassword),
        r is Ok <==> valid_password(password@) && record_fits(seed@, string_views(saved@)),
        r matches Ok(b) ==> b@ == sealed_record(password@, salt@, nonce@, seed@, string_views(saved@)),
        r is Err ==> r == Err::<Vec<u8>, Error>(Error::InvalidPassword) || r == Err::<Vec<u8>, Error>(
            Error::InvalidPassphrase,
        ),
        valid_phrase(seed@.0),
        fits(seed@),
{
    let plain0 = seed.to_bytes();
    let pw: &[u8] = password.as_bytes();
    if pw.len() == 0 || pw.len() > 0xFFFF_FFFF {
        return Err(Error::InvalidPassword);
    }
    if !all_fit(saved) {
        return Err(Error::InvalidPassphrase);
    }
    let plain = record_to_bytes(seed, saved);
    if plain.len() as u64 > 0xF_FFFF_FFFF {
        return Err(Error::InvalidPassphrase);
    }
    let key = match argon2id(pw, salt) {
        Some(k) => k,
        None => return Err(Error::InvalidPassword),
    };
    let sealed = match aead_seal(key.as_slice(), nonce, plain.as_slice()) {
        Some(c) => c,
        None => return Err(Error::InvalidPassphrase),
    };
    let mut out: Vec<u8> = Vec::new();
    out.push(FORMAT_VERSION);
    crate::bytes::extend_bytes(&mut out, salt);
    crate::bytes::extend_bytes(&mut out, nonce);
    crate::bytes::extend_bytes(&mut out, sealed.as_slice());
    assert(out@ =~= sealed_record(password@, salt@, nonce@, seed@, string_views(saved@)));
    Ok(out)
}

/// Encrypts a seed and its saved passphrases under a password, with a fresh
/// random salt and nonce.
pub fn encrypt_record(seed: &Seed, saved: &Vec<String>, password: &str) -> (r: Result<Vec<u8>, Error>)
    ensures
        !valid_password(password@) ==> r == Err::<Vec<u8>, Error>(Error::InvalidPassword),
        r is Ok <==> valid_password(password@) && record_fits(seed@, string_views(saved@)),
        r matches Ok(b) ==> decrypts_record(password@, b@, seed@, string_views(saved@)),
        r is Err ==> r == Err::<Vec<u8>, Error>(Error::InvalidPassword) || r == Err::<Vec<u8>, Error>(
            Error::InvalidPassphrase,
        ),
        valid_phrase(seed@.0),
        fits(seed@),
{
    let salt = os_random_bytes(SALT_LEN);
    let nonce = os_random_bytes(NONCE_LEN);
    let r = encrypt_record_with(seed, saved, password, salt.as_slice(), nonce.as_slice());
    proof {
        if r is Ok {
            lemma_sealed_record_decrypts(password@, salt@, nonce@, seed@, string_views(saved@));
        }
    }
    r
}

proof fn lemma_empty_record_fits(v: SeedView)
    requires
        fits(v),
    ensures
        record_fits(v, Seq::<Seq<char>>::empty()),
        string_views(Seq::<String>::empty()) == Seq::<Seq<char>>::empty(),
{
    assert(string_views(Seq::<String>::empty()) =~= Seq::<Seq<char>>::empty());
}

/// Encrypts a seed, with no saved passphrases, under a password with a given salt and nonce.
pub fn encrypt_with(seed: &Seed, password: &str, salt: &[u8], nonce: &[u8]) -> (r: Result<Vec<u8>, Error>)
    requires
        salt@.len() == SALT_LEN,
        nonce@.len() == NONCE_LEN,
    ensures
        r is Ok <==> valid_password(password@),
        r matches Ok(b) ==> b@ == sealed_file(password@, salt@, nonce@, seed@),
        r is Err ==> r == Err::<Vec<u8>, Error>(Error::InvalidPassword),
        valid_phrase(seed@.0),
        fits(seed@),
{
    let none: Vec<String> = Vec::new();
    let r = encrypt_record_with(seed, &none, password, salt, nonce);
    proof {
        lemma_empty_record_fits(seed@);
    }
    r
}

/// Encrypts a seed, with no saved passphrases, under a password, with a fresh
/// random salt and nonce. `InvalidPassword` exactly when the password is empty
/// or too long.
pub fn encrypt(seed: &Seed, password: &str) -> (r: Result<Vec<u8>, Error>)
    ensures
        r is Ok <==> valid_password(password@),
        r matches Ok(b) ==> decrypts_to(password@, b@, seed@),
        r is Err ==> r == Err::<Vec<u8>, Error>(Error::InvalidPassword),
{
    let none: Vec<String> = Vec::new();
    let r = encrypt_record(seed, &none, password);
    proof {
        lemma_empty_record_fits(seed@);
        if r is Ok {
            assert(decrypts_record(password@, r->Ok_0@, seed@, Seq::<Seq<char>>::empty()));
        }
    }
    r
}

/// Decrypts a keychain file into its seed and saved passphrases. It returns
/// them only when the bytes are exactly their sealing under this very
/// password, and it returns them whenever they are; any other bytes, a wrong
/// password included, give `AuthenticationFailed`.
pub fn decrypt_record(password: &str, bytes: &[u8]) -> (r: Result<(Seed, Vec<String>), Error>)
    ensures
        r matches Ok((s, l)) ==> decrypts_record(password@, bytes@, s@, string_views(l@)),
        forall|v: SeedView, saved: Seq<Seq<char>>|
            #[trigger] decrypts_record(password@, bytes@, v, saved) ==> (r is Ok && r->Ok_0.0@ == v
                && string_views(r->Ok_0.1@) == saved),
        r is Err ==> r == Err::<(Seed, Vec<String>), Error>(Error::AuthenticationFailed),
{
    let len = bytes.len();
    if len < HEADER_LEN || bytes[0] != FORMAT_VERSION {
        return Err(Error::AuthenticationFailed);
    }
    let pw: &[u8] = password.as_bytes();
    if pw.len() == 0 || pw.len() > 0xFFFF_FFFF {
        return Err(Error::AuthenticationFailed);
    }
    let salt = copy_range(bytes, 1, 17);
    let nonce = copy_range(bytes, 17, HEADER_LEN);
    let sealed = copy_range(bytes, HEADER_LEN, len);
    proof {
        assert forall|v: SeedView, saved: Seq<Seq<char>>| #[trigger] decrypts_record(password@, bytes@, v, saved) implies
            sealed@ == aead_seal_of(file_key(password@, salt@), nonce@, serialize_record(v, saved)) by {
            assert(sealed_record(password@, salt@, nonce@, v, saved).subrange(29, len as int)
                =~= aead_seal_of(file_key(password@, salt@), nonce@, serialize_record(v, saved)));
        }
    }
    let key = match argon2id(pw, salt.as_slice()) {
        Some(k) => k,
        None => return Err(Error::AuthenticationFailed),
    };
    let plain = match aead_open(key.as_slice(), nonce.as_slice(), sealed.as_slice()) {
        Some(p) => p,
        None => return Err(Error::AuthenticationFailed),
    };
    let (seed, saved) = match record_from_bytes(plain.as_slice()) {
        Some(x) => x,
        None => return Err(Error::AuthenticationFailed),
    };
    assert(bytes@ =~= sealed_record(password@, salt@, nonce@, seed@, string_views(saved@)));
    Ok((seed, saved))
}

/// Decrypts a keychain file into its seed: `decrypt_record` without the saved
/// passphrases.
pub fn decrypt(password: &str, bytes: &[u8]) -> (r: Result<Seed, Error>)
    ensures
        r matches Ok(s) ==> decrypts_to(password@, bytes@, s@),
        forall|v: SeedView| #[trigger] decrypts_to(password@, bytes@, v) ==> (r is Ok && r->Ok_0@ == v),
        r is Err ==> r == Err::<Seed, Error>(Error::AuthenticationFailed),
{
    match decrypt_record(password, bytes) {
        Ok((seed, saved)) => {
            assert(decrypts_record(password@, bytes@, seed@, string_views(saved@)));
            Ok(seed)
        },
        Err(e) => Err(e),
    }
}

/// Round trip: the file that sealing a valid seed and saved passphrases under
/// a valid password produces, with any salt and nonce, decrypts under that
/// password to the same seed and passphrases (and, by `decrypt_record`'s
/// contract, to nothing else).
pub proof fn lemma_sealed_record_decrypts(
    password: Seq<char>,
    salt: Seq<u8>,
    nonce: Seq<u8>,
    v: SeedView,
    saved: Seq<Seq<char>>,
)
    requires
        valid_password(password),
        salt.len() == SALT_LEN,
        nonce.len() == NONCE_LEN,
        valid_phrase(v.0),
        fits(v),
        list_fits(saved),
    ensures
        decrypts_record(password, sealed_record(password, salt, nonce, v, saved), v, saved),
{
    let b = sealed_record(password, salt, nonce, v, saved);
    assert(file_salt(b) =~= salt);
    assert(file_nonce(b) =~= nonce);
}

/// Round trip for a seed alone: `decrypt` gives back the seed that was sealed.
pub proof fn lemma_sealed_seed_decrypts(password: Seq<char>, salt: Seq<u8>, nonce: Seq<u8>, v: SeedView)
    requires
        valid_password(password),
        salt.len() == SALT_LEN,
        nonce.len() == NONCE_LEN,
        valid_phrase(v.0),
        fits(v),
    ensures
        decrypts_to(password, sealed_file(password, salt, nonce, v), v),
{
    lemma_sealed_record_decrypts(password, salt, nonce, v, Seq::<Seq<char>>::empty());
    assert(decrypts_record(password, sealed_file(password, salt, nonce, v), v, Seq::<Seq<char>>::empty()));
}

} // verus!
