//! Deterministic derivation: BIP32 master keys, account keys and BIP85 children.

use vstd::prelude::*;
use vstd::string::*;

use std::str::FromStr;

use bdk::keys::bip39;
use bitcoin::secp256k1::Secp256k1;
use bitcoin::util::bip32;

use crate::crypto::{hmac_sha512, hmac_sha512_of};
use crate::descriptor::{account_path, build, check_path, spec_account_path, spec_build, spec_check_path, ChildNumber, DerivationPath, Descriptor};
use crate::error::Error;
use crate::seed::{bip39_accepts, Mnemonic, Seed};
use crate::types::{Network, WordCount};

verus! {

/// The 64-byte BIP39 seed of a phrase and a passphrase (PBKDF2-HMAC-SHA512).
pub uninterp spec fn bip39_seed_of(phrase: Seq<char>, passphrase: Seq<char>) -> Seq<u8>;

/// The base58 `xprv` of the BIP32 master key of seed bytes on a network.
pub uninterp spec fn bip32_master_of(seed: Seq<u8>, network: Network) -> Seq<char>;

/// The four-byte fingerprint of the key that an `xprv` string encodes.
pub uninterp spec fn bip32_fingerprint_of(xprv: Seq<char>) -> Seq<u8>;

/// The base58 `xpub` of the child that a path reaches from an `xprv`.
pub uninterp spec fn bip32_xpub_of(xprv: Seq<char>, path: Seq<ChildNumber>) -> Seq<char>;

/// The 32 secret bytes of the child private key that a path reaches from an `xprv`.
pub uninterp spec fn bip32_secret_of(xprv: Seq<char>, path: Seq<ChildNumber>) -> Seq<u8>;

/// Relies on `bip39::Mnemonic::parse` and `Mnemonic::to_seed`: 64 seed bytes
/// for an accepted phrase.
#[verifier::external_body]
fn bip39_seed(phrase: &str, passphrase: &str) -> (r: Option<Vec<u8>>)
    ensures
        r is Some <==> bip39_accepts(phrase@),
        r matches Some(s) ==> s@ == bip39_seed_of(phrase@, passphrase@) && s@.len() == 64,
{
    bip39::Mnemonic::parse(phrase).ok().map(|m| m.to_seed(passphrase).to_vec())
}

/// Whether `bip32::ExtendedPrivKey::from_str` accepts a text.
pub uninterp spec fn bip32_xprv_parses(text: Seq<char>) -> bool;

/// The depth byte of the extended private key that a text encodes.
pub uninterp spec fn bip32_depth_of(text: Seq<char>) -> nat;

/// Whether the HMAC-SHA512 of seed bytes gives a valid secret key, which is
/// all that `ExtendedPrivKey::new_master` can fail on.
pub uninterp spec fn bip32_master_ok(seed: Seq<u8>) -> bool;

/// The 78-byte BIP32 serialization of the child `xpub` that a path reaches from an `xprv`.
pub uninterp spec fn bip32_xpub_bytes_of(xprv: Seq<char>, path: Seq<ChildNumber>) -> Seq<u8>;

/// Relies on `bip32::ExtendedPrivKey::from_str`, which keeps the depth byte of the text.
#[verifier::external_body]
fn bip32_xprv_depth(text: &str) -> (r: Option<u8>)
    ensures
        r is Some <==> bip32_xprv_parses(text@),
        r matches Some(d) ==> d as nat == bip32_depth_of(text@),
{
    bip32::ExtendedPrivKey::from_str(text).ok().map(|k| k.depth)
}

/// Relies on `bip32::ExtendedPrivKey::new_master` and its `Display`: a master
/// key of depth 0, whose text parses again; it fails only on an invalid
/// secret key.
#[verifier::external_body]
fn bip32_master(seed: &[u8], network: Network) -> (r: Option<String>)
    ensures
        r is Some <==> bip32_master_ok(seed@),
        r matches Some(x) ==> x@ == bip32_master_of(seed@, network) && bip32_xprv_parses(x@) && bip32_depth_of(x@)
            == 0,
{
    let net = match network {
        Network::Bitcoin => bitcoin::Network::Bitcoin,
        Network::Testnet => bitcoin::Network::Testnet,
        Network::Signet => bitcoin::Network::Signet,
        Network::Regtest => bitcoin::Network::Regtest,
    };
    bip32::ExtendedPrivKey::new_master(net, seed).ok().map(|k| k.to_string())
}

/// Relies on `bip32::ExtendedPrivKey::from_str` and `fingerprint`, which
/// cannot fail once the text parses.
#[verifier::external_body]
fn bip32_fingerprint(xprv: &str) -> (r: Option<[u8; 4]>)
    ensures
        bip32_xprv_parses(xprv@) ==> r is Some,
        r matches Some(f) ==> f@ == bip32_fingerprint_of(xprv@),
{
    let key = bip32::ExtendedPrivKey::from_str(xprv).ok()?;
    Some(key.fingerprint(&Secp256k1::new()).into_bytes())
}

/// Relies on `bip32::ExtendedPrivKey::derive_priv`, then
/// `ExtendedPubKey::from_priv` and its `Display`. Each step of `derive_priv`
/// (`ckd_priv`) returns `Ok` and adds one to the `u8` depth, so the depth and
/// the path together stay within 255.
#[verifier::external_body]
fn bip32_derive_xpub(xprv: &str, path: &[ChildNumber]) -> (r: Option<String>)
    requires
        bip32_xprv_parses(xprv@) ==> bip32_depth_of(xprv@) + path@.len() <= 255,
    ensures
        bip32_xprv_parses(xprv@) ==> r is Some,
        r matches Some(x) ==> x@ == bip32_xpub_of(xprv@, path@),
{
    let key = bip32::ExtendedPrivKey::from_str(xprv).ok()?;
    let path: Vec<bip32::ChildNumber> = path.iter().map(|c| match c.hardened {
        true => bip32::ChildNumber::Hardened { index: c.index },
        false => bip32::ChildNumber::Normal { index: c.index },
    }).collect();
    let secp = Secp256k1::new();
    let child = key.derive_priv(&secp, &path).ok()?;
    Some(bip32::ExtendedPubKey::from_priv(&secp, &child).to_string())
}

/// Relies on `bip32::ExtendedPrivKey::derive_priv`, then
/// `ExtendedPubKey::from_priv` and `encode`: the 78 bytes of the child `xpub`.
/// Same bound on the depth as above.
#[verifier::external_body]
fn bip32_derive_xpub_bytes(xprv: &str, path: &[ChildNumber]) -> (r: Option<Vec<u8>>)
    requires
        bip32_xprv_parses(xprv@) ==> bip32_depth_of(xprv@) + path@.len() <= 255,
    ensures
        bip32_xprv_parses(xprv@) ==> r is Some,
        r matches Some(b) ==> b@ == bip32_xpub_bytes_of(xprv@, path@) && b@.len() == 78,
{
    let key = bip32::ExtendedPrivKey::from_str(xprv).ok()?;
    let path: Vec<bip32::ChildNumber> = path.iter().map(|c| match c.hardened {
        true => bip32::ChildNumber::Hardened { index: c.index },
        false => bip32::ChildNumber::Normal { index: c.index },
    }).collect();
    let secp = Secp256k1::new();
    let child = key.derive_priv(&secp, &path).ok()?;
    Some(bip32::ExtendedPubKey::from_priv(&secp, &child).encode().to_vec())
}

/// Relies on `bip32::ExtendedPrivKey::derive_priv`: the child's 32 secret
/// bytes. Same bound on the depth as above.
#[verifier::external_body]
fn bip32_derive_secret(xprv: &str, path: &[ChildNumber]) -> (r: Option<Vec<u8>>)
    requires
        bip32_xprv_parses(xprv@) ==> bip32_depth_of(xprv@) + path@.len() <= 255,
    ensures
        bip32_xprv_parses(xprv@) ==> r is Some,
        r matches Some(k) ==> k@ == bip32_secret_of(xprv@, path@) && k@.len() == 32,
{
    let key = bip32::ExtendedPrivKey::from_str(xprv).ok()?;
    let path: Vec<bip32::ChildNumber> = path.iter().map(|c| match c.hardened {
        true => bip32::ChildNumber::Hardened { index: c.index },
        false => bip32::ChildNumber::Normal { index: c.index },
    }).collect();
    let child = key.derive_priv(&Secp256k1::new(), &path).ok()?;
    Some(child.private_key.secret_bytes().to_vec())
}

/// The passphrase a seed derives with: its own, or the empty one.
pub open spec fn passphrase_or_empty(p: Option<Seq<char>>) -> Seq<char> {
    match p {
        None => Seq::<char>::empty(),
        Some(s) => s,
    }
}

/// The `xprv` of a seed's master key on a network: a function of the phrase,
/// the passphrase and the network alone.
pub open spec fn spec_root_xprv(phrase: Seq<char>, passphrase: Option<Seq<char>>, network: Network) -> Seq<char> {
    bip32_master_of(bip39_seed_of(phrase, passphrase_or_empty(passphrase)), network)
}

/// Whether a seed's master key exists: the BIP32 step on its BIP39 seed bytes.
pub open spec fn spec_root_ok(phrase: Seq<char>, passphrase: Option<Seq<char>>) -> bool {
    bip32_master_ok(bip39_seed_of(phrase, passphrase_or_empty(passphrase)))
}

/// A BIP32 master key, held as its base58 `xprv` text.
#[derive(Debug, PartialEq, Eq)]
pub struct RootKey {
    xprv: String,
}

impl View for RootKey {
    type V = Seq<char>;

    closed spec fn view(&self) -> Seq<char> {
        self.xprv@
    }
}

impl RootKey {
    /// The text parses, and as a master key: at depth 0.
    #[verifier::type_invariant]
    spec fn inv(self) -> bool {
        bip32_xprv_parses(self.xprv@) && bip32_depth_of(self.xprv@) == 0
    }

    pub fn as_str(&self) -> (r: &str)
        ensures
            r@ == self@,
            bip32_xprv_parses(self@),
            bip32_depth_of(self@) == 0,
    {
        proof {
            use_type_invariant(self);
        }
        self.xprv.as_str()
    }

    /// A root key from its `xprv` text: `ParseError` when it does not parse or
    /// is not a master key (depth 0).
    pub fn parse(text: &str) -> (r: Result<RootKey, Error>)
        ensures
            r is Ok <==> bip32_xprv_parses(text@) && bip32_depth_of(text@) == 0,
            r matches Ok(k) ==> k@ == text@,
            r is Err ==> r == Err::<RootKey, Error>(Error::ParseError),
    {
        match bip32_xprv_depth(text) {
            Some(0) => Ok(RootKey { xprv: <String as StringExecFns>::from_str(text) }),
            _ => Err(Error::ParseError),
        }
    }

    /// The fingerprint of the master key.
    pub fn fingerprint(&self) -> (r: [u8; 4])
        ensures
            r@ == bip32_fingerprint_of(self@),
    {
        bip32_fingerprint(self.as_str()).unwrap()
    }

    /// The `xpub` of the child at `path`.
    pub fn derive_xpub(&self, path: &DerivationPath) -> (r: String)
        requires
            path.children@.len() <= 255,
        ensures
            r@ == bip32_xpub_of(self@, path.children@),
    {
        bip32_derive_xpub(self.as_str(), path.children.as_slice()).unwrap()
    }

    /// The 78 serialized bytes of the child `xpub` at `path`.
    pub fn derive_xpub_bytes(&self, path: &DerivationPath) -> (r: Vec<u8>)
        requires
            path.children@.len() <= 255,
        ensures
            r@ == bip32_xpub_bytes_of(self@, path.children@),
            r@.len() == 78,
    {
        bip32_derive_xpub_bytes(self.as_str(), path.children.as_slice()).unwrap()
    }
}

/// The master key of a mnemonic under a passphrase on a network;
/// `DerivationFailed` exactly when BIP32 rejects the seed bytes.
pub fn root_key_from(mnemonic: &Mnemonic, passphrase: &str, network: Network) -> (r: Result<RootKey, Error>)
    ensures
        r is Ok <==> bip32_master_ok(bip39_seed_of(mnemonic@, passphrase@)),
        r matches Ok(k) ==> k@ == bip32_master_of(bip39_seed_of(mnemonic@, passphrase@), network),
        r is Err ==> r == Err::<RootKey, Error>(Error::DerivationFailed),
{
    let bytes = bip39_seed(mnemonic.as_str(), passphrase).unwrap();
    match bip32_master(bytes.as_slice(), network) {
        Some(x) => Ok(RootKey { xprv: x }),
        None => Err(Error::DerivationFailed),
    }
}

fn empty_str() -> (r: &'static str)
    ensures
        r@ == Seq::<char>::empty(),
{
    let e: &str = "";
    proof {
        reveal_strlit("");
        assert(e@ =~= Seq::<char>::empty());
    }
    e
}

/// The master key of a seed on a network, from its phrase and its passphrase
/// (the empty one when it has none). Identical inputs give identical keys;
/// `DerivationFailed` exactly when BIP32 rejects the seed bytes.
pub fn root_key(seed: &Seed, network: Network) -> (r: Result<RootKey, Error>)
    ensures
        r is Ok <==> spec_root_ok(seed@.0, seed@.1),
        r matches Ok(k) ==> k@ == spec_root_xprv(seed@.0, seed@.1, network),
        r is Err ==> r == Err::<RootKey, Error>(Error::DerivationFailed),
{
    let passphrase: &str = match seed.passphrase() {
        Some(p) => p,
        None => empty_str(),
    };
    assert(passphrase@ == passphrase_or_empty(seed@.1));
    root_key_from(seed.mnemonic(), passphrase, network)
}

/// The descriptor of the account that `path` names under a root key: the
/// root's fingerprint and the account's `xpub` in the template of the path's
/// purpose; exactly what `build` gives for them.
pub fn account_descriptor(root: &RootKey, path: &DerivationPath, change: bool) -> (r: Result<Descriptor, Error>)
    ensures
        match spec_build(
            bip32_fingerprint_of(root@),
            bip32_xpub_of(root@, spec_account_path(path.children@)),
            path.children@,
            change,
        ) {
            Ok((script, text)) => r matches Ok(d) && d.script_type == script && d.text@ == text,
            Err(e) => r == Err::<Descriptor, Error>(e),
        },
{
    if let Err(e) = check_path(path) {
        return Err(e);
    }
    let fingerprint = root.fingerprint();
    let account = account_path(path);
    let xpub = root.derive_xpub(&account);
    build(&fingerprint, xpub.as_str(), path, change)
}

/// BIP85 application number of BIP39 mnemonics.
pub const BIP85_PURPOSE: u32 = 83696968;

/// `m/83696968'/39'/0'/{words}'/{index}'`: English BIP39 child of a word count and an index.
pub open spec fn bip85_path(words: nat, index: u32) -> Seq<ChildNumber> {
    seq![
        ChildNumber { index: BIP85_PURPOSE, hardened: true },
        ChildNumber { index: 39, hardened: true },
        ChildNumber { index: 0, hardened: true },
        ChildNumber { index: words as u32, hardened: true },
        ChildNumber { index, hardened: true },
    ]
}

/// The HMAC key of BIP85: the bytes of `bip-entropy-from-k`.
pub open spec fn bip85_label() -> Seq<u8> {
    vstd::utf8::encode_utf8(
        seq!['b', 'i', 'p', '-', 'e', 'n', 't', 'r', 'o', 'p', 'y', '-', 'f', 'r', 'o', 'm', '-', 'k'],
    )
}

/// BIP85 entropy of a derived child key: the HMAC-SHA512 of its secret bytes
/// under the label, truncated to the word count's entropy length.
pub open spec fn spec_bip85_entropy(secret: Seq<u8>, word_count: WordCount) -> Seq<u8> {
    hmac_sha512_of(bip85_label(), secret).subrange(0, word_count.spec_entropy_len() as int)
}

/// The BIP85 child phrase of a root key, a word count and an index.
pub open spec fn spec_bip85_phrase(root: Seq<char>, word_count: WordCount, index: u32) -> Seq<char> {
    crate::seed::bip39_phrase_of(
        spec_bip85_entropy(bip32_secret_of(root, bip85_path(word_count.spec_words(), index)), word_count),
    )
}

/// BIP85 entropy from the secret bytes of a derived child key.
pub fn bip85_entropy(secret: &[u8], word_count: WordCount) -> (r: Vec<u8>)
    ensures
        r@ == spec_bip85_entropy(secret@, word_count),
        r@.len() == word_count.spec_entropy_len(),
{
    let text: &str = "bip-entropy-from-k";
    proof {
        reveal_strlit("bip-entropy-from-k");
    }
    assert(text@ =~= seq!['b', 'i', 'p', '-', 'e', 'n', 't', 'r', 'o', 'p', 'y', '-', 'f', 'r', 'o', 'm', '-', 'k']);
    let digest = hmac_sha512(text.as_bytes(), secret);
    let len: usize = word_count.entropy_len();
    let mut out: Vec<u8> = Vec::new();
    let mut i: usize = 0;
    while i < len
        invariant
            i <= len,
            len == word_count.spec_entropy_len(),
            len <= 32,
            digest@.len() == 64,
            out@ == digest@.subrange(0, i as int),
        decreases len - i,
    {
        out.push(digest[i]);
        i += 1;
        assert(out@ =~= digest@.subrange(0, i as int));
    }
    out
}

/// Derives a BIP85 child mnemonic of a root key: `InvalidIndex` exactly for
/// an index of 2^31 or more; otherwise the phrase of the word count's length
/// that BIP85 gives, a function of the root key, the word count and the index
/// alone.
pub fn bip85_child_mnemonic(root: &RootKey, word_count: WordCount, index: u32) -> (r: Result<Mnemonic, Error>)
    ensures
        r is Err <==> index >= 0x8000_0000,
        r is Err ==> r == Err::<Mnemonic, Error>(Error::InvalidIndex),
        r matches Ok(m) ==> m@ == spec_bip85_phrase(root@, word_count, index) && crate::seed::word_count_of(m@)
            == word_count.spec_words(),
{
    if index >= 0x8000_0000 {
        return Err(Error::InvalidIndex);
    }
    let mut path: Vec<ChildNumber> = Vec::new();
    path.push(ChildNumber::hardened(BIP85_PURPOSE));
    path.push(ChildNumber::hardened(39));
    path.push(ChildNumber::hardened(0));
    path.push(ChildNumber::hardened(word_count.as_u32()));
    path.push(ChildNumber::hardened(index));
    assert(path@ =~= bip85_path(word_count.spec_words(), index));
    let secret = bip32_derive_secret(root.as_str(), path.as_slice()).unwrap();
    let entropy = bip85_entropy(secret.as_slice(), word_count);
    let m = Mnemonic::from_entropy(entropy.as_slice()).unwrap();
    assert(crate::seed::word_count_of(m@) == word_count.spec_words()) by {
        match word_count {
            WordCount::W12 => {},
            WordCount::W18 => {},
            WordCount::W24 => {},
        }
    }
    Ok(m)
}

} // verus!
