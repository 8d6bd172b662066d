//! The keychain lifecycle: generate, restore, open, save, rename, wipe.

use vstd::prelude::*;
use vstd::string::*;

use crate::codec::{decrypt, decrypt_record, decrypts_record, decrypts_to, encrypt, encrypt_record, record_fits, valid_password};
use crate::record::string_views;
use crate::entropy::{entropy, mixed, opt_bytes, HostEntropy};
use crate::error::Error;
use crate::seed::{SeedView, bip39_canonical, bip39_phrase_of, fits, opt_view, passphrase_fits, valid_phrase, word_count_of, Mnemonic, Seed};
use crate::store::KeychainStore;
use crate::derivation::{bip32_fingerprint_of, root_key, root_key_from, spec_bip85_phrase, spec_root_ok, spec_root_xprv, RootKey};
use crate::types::{Network, WordCount};

verus! {

/// `entropy` came out of the mixer for this word count, host block and
/// caller entropy, with some 32 bytes from each generator.
pub open spec fn mixer_output(
    entropy: Seq<u8>,
    word_count: WordCount,
    host: HostEntropy,
    custom: Option<Seq<u8>>,
) -> bool {
    exists|os: Seq<u8>, hc: Seq<u8>, chacha: Seq<u8>|
        os.len() == 32 && hc.len() == 32 && chacha.len() == 32
        && entropy == #[trigger] mixed(word_count, os, hc, chacha, host, custom)
}

/// Seals a new seed and files it under `name`.
fn persist_new(store: &mut KeychainStore, name: &str, password: &str, seed: &Seed) -> (r: Result<(), Error>)
    requires
        old(store).wf(),
        !old(store)@.contains_key(name@),
        valid_password(password@),
    ensures
        final(store).wf(),
        r is Ok,
        exists|b: Seq<u8>|
            decrypts_to(password@, b, seed@) && #[trigger] final(store)@ == old(store)@.insert(name@, b),
{
    let bytes = match encrypt(seed, password) {
        Ok(b) => b,
        Err(e) => return Err(e),
    };
    let ghost b = bytes@;
    let r = store.create_exclusive(name, bytes);
    assert(store@ == old(store)@.insert(name@, b));
    r
}

/// Creates a keychain from fresh entropy.
///
/// `AlreadyExists` when the name is taken, else `InvalidPassword` when the
/// password is empty; `InvalidPassphrase` when the passphrase is too long to
/// store. On success the store holds the new seed sealed under the password,
/// and the seed is returned so that its mnemonic can be shown once.
pub fn generate(
    store: &mut KeychainStore,
    name: &str,
    password: &str,
    word_count: WordCount,
    passphrase: Option<String>,
    host: &HostEntropy,
    custom_entropy: Option<&[u8]>,
) -> (r: Result<Seed, Error>)
    requires
        old(store).wf(),
    ensures
        final(store).wf(),
        old(store)@.contains_key(name@) ==> r == Err::<Seed, Error>(Error::AlreadyExists),
        !old(store)@.contains_key(name@) && !valid_password(password@) ==> r == Err::<Seed, Error>(
            Error::InvalidPassword,
        ),
        r is Err ==> final(store)@ == old(store)@,
        r is Err ==> r == Err::<Seed, Error>(Error::AlreadyExists) || r == Err::<Seed, Error>(
            Error::InvalidPassword,
        ) || r == Err::<Seed, Error>(Error::InvalidPassphrase),
        r == Err::<Seed, Error>(Error::InvalidPassphrase) ==> exists|e: Seq<u8>|
            mixer_output(e, word_count, *host, opt_bytes(custom_entropy)) && !fits(
                (#[trigger] bip39_phrase_of(e), opt_view(passphrase)),
            ),
        !old(store)@.contains_key(name@) && valid_password(password@) && passphrase_fits(opt_view(passphrase))
            ==> r is Ok,
        r matches Ok(seed) ==> {
            &&& !old(store)@.contains_key(name@)
            &&& seed@.1 == opt_view(passphrase)
            &&& word_count_of(seed@.0) == word_count.spec_words()
            &&& valid_phrase(seed@.0)
            &&& exists|e: Seq<u8>|
                mixer_output(e, word_count, *host, opt_bytes(custom_entropy)) && #[trigger] bip39_phrase_of(e)
                    == seed@.0
            &&& exists|b: Seq<u8>|
                decrypts_to(password@, b, seed@) && #[trigger] final(store)@ == old(store)@.insert(name@, b)
        },
{
    if store.contains(name) {
        return Err(Error::AlreadyExists);
    }
    let pw_len: usize = password.as_bytes().len();
    if pw_len == 0 || pw_len > 0xFFFF_FFFF {
        return Err(Error::InvalidPassword);
    }
    let bytes = entropy(word_count, host, custom_entropy);
    let ghost e = bytes@;
    let mnemonic = match Mnemonic::from_entropy(bytes.as_slice()) {
        Ok(m) => m,
        Err(err) => return Err(err),
    };
    assert(bip39_phrase_of(e) == mnemonic@);
    assert(word_count_of(mnemonic@) == word_count.spec_words()) by {
        match word_count {
            WordCount::W12 => {},
            WordCount::W18 => {},
            WordCount::W24 => {},
        }
    }
    let ghost pass = opt_view(passphrase);
    let seed = match Seed::new(mnemonic, passphrase) {
        Ok(s) => s,
        Err(err) => return Err(err),
    };
    persist_new(store, name, password, &seed);
    Ok(seed)
}

/// Creates a keychain from an existing phrase, which is checked against
/// BIP39 before anything is stored.
///
/// `AlreadyExists`, then `InvalidPassword`, then `InvalidMnemonic`, then
/// `InvalidPassphrase`, each with the store unchanged.
pub fn restore(
    store: &mut KeychainStore,
    name: &str,
    password: &str,
    mnemonic: &str,
    passphrase: Option<String>,
) -> (r: Result<Seed, Error>)
    requires
        old(store).wf(),
    ensures
        final(store).wf(),
        old(store)@.contains_key(name@) ==> r == Err::<Seed, Error>(Error::AlreadyExists),
        !old(store)@.contains_key(name@) && !valid_password(password@) ==> r == Err::<Seed, Error>(
            Error::InvalidPassword,
        ),
        !old(store)@.contains_key(name@) && valid_password(password@) && !crate::seed::bip39_accepts(mnemonic@)
            ==> r == Err::<Seed, Error>(Error::InvalidMnemonic),
        !old(store)@.contains_key(name@) && valid_password(password@) && crate::seed::bip39_accepts(mnemonic@) ==> (
        r is Ok <==> fits((bip39_canonical(mnemonic@), opt_view(passphrase)))),
        !old(store)@.contains_key(name@) && valid_password(password@) && crate::seed::bip39_accepts(mnemonic@)
            && passphrase_fits(opt_view(passphrase)) ==> r is Ok,
        r is Err ==> final(store)@ == old(store)@,
        r matches Ok(seed) ==> {
            &&& !old(store)@.contains_key(name@)
            &&& seed@ == (bip39_canonical(mnemonic@), opt_view(passphrase))
            &&& exists|b: Seq<u8>|
                decrypts_to(password@, b, seed@) && #[trigger] final(store)@ == old(store)@.insert(name@, b)
        },
{
    if store.contains(name) {
        return Err(Error::AlreadyExists);
    }
    let pw_len: usize = password.as_bytes().len();
    if pw_len == 0 || pw_len > 0xFFFF_FFFF {
        return Err(Error::InvalidPassword);
    }
    let m = match Mnemonic::parse(mnemonic) {
        Ok(m) => m,
        Err(err) => return Err(err),
    };
    let seed = match Seed::new(m, passphrase) {
        Ok(s) => s,
        Err(err) => return Err(err),
    };
    persist_new(store, name, password, &seed);
    Ok(seed)
}

/// Opens a keychain: `NotFound` when there is none of that name, else
/// exactly what `decrypt` gives for its bytes (a wrong password is
/// `AuthenticationFailed`).
pub fn open(store: &KeychainStore, name: &str, password: &str) -> (r: Result<Seed, Error>)
    requires
        store.wf(),
    ensures
        !store@.contains_key(name@) ==> r == Err::<Seed, Error>(Error::NotFound),
        store@.contains_key(name@) ==> {
            &&& r matches Ok(s) ==> decrypts_to(password@, store@[name@], s@)
            &&& forall|v: crate::seed::SeedView|
                #[trigger] decrypts_to(password@, store@[name@], v) ==> (r is Ok && r->Ok_0@ == v)
            &&& r is Err ==> r == Err::<Seed, Error>(Error::AuthenticationFailed)
        },
{
    let bytes = match store.read(name) {
        Ok(b) => b,
        Err(e) => return Err(e),
    };
    decrypt(password, bytes)
}

/// Seals a keychain's seed and saved passphrases under `password` and
/// replaces its file in one step: after a change of password, or of the saved
/// passphrases. `InvalidPassword` for an unusable password, else
/// `InvalidPassphrase` when the record does not fit, else `NotFound`; the
/// store is unchanged on error.
pub fn save_keychain(store: &mut KeychainStore, keychain: &Keychain, password: &str) -> (r: Result<(), Error>)
    requires
        old(store).wf(),
    ensures
        final(store).wf(),
        !valid_password(password@) ==> r == Err::<(), Error>(Error::InvalidPassword),
        r is Ok <==> valid_password(password@) && record_fits(keychain.seed@, string_views(keychain.saved_passphrases@))
            && old(store)@.contains_key(keychain.name@),
        valid_password(password@) && record_fits(keychain.seed@, string_views(keychain.saved_passphrases@))
            && !old(store)@.contains_key(keychain.name@) ==> r == Err::<(), Error>(Error::NotFound),
        r is Ok ==> exists|b: Seq<u8>|
            decrypts_record(password@, b, keychain.seed@, string_views(keychain.saved_passphrases@))
                && #[trigger] final(store)@ == old(store)@.insert(keychain.name@, b),
        r is Err ==> final(store)@ == old(store)@,
{
    let bytes = match encrypt_record(&keychain.seed, &keychain.saved_passphrases, password) {
        Ok(b) => b,
        Err(e) => return Err(e),
    };
    let ghost b = bytes@;
    let r = store.replace(keychain.name.as_str(), bytes);
    if r.is_ok() {
        assert(store@ == old(store)@.insert(keychain.name@, b));
    }
    r
}

/// Changes a keychain's password: its record sealed anew under the new one.
pub fn change_password(store: &mut KeychainStore, keychain: &Keychain, new_password: &str) -> (r: Result<(), Error>)
    requires
        old(store).wf(),
    ensures
        final(store).wf(),
        !valid_password(new_password@) ==> r == Err::<(), Error>(Error::InvalidPassword),
        r is Ok <==> valid_password(new_password@) && record_fits(keychain.seed@, string_views(keychain.saved_passphrases@))
            && old(store)@.contains_key(keychain.name@),
        r is Ok ==> exists|b: Seq<u8>|
            decrypts_record(new_password@, b, keychain.seed@, string_views(keychain.saved_passphrases@))
                && #[trigger] final(store)@ == old(store)@.insert(keychain.name@, b),
        r is Err ==> final(store)@ == old(store)@,
{
    save_keychain(store, keychain, new_password)
}

/// Opens a keychain with its saved passphrases; the session starts with no
/// active passphrase. `NotFound` when there is none of that name, else
/// exactly what `decrypt_record` gives for its bytes.
pub fn open_keychain(store: &KeychainStore, name: &str, password: &str) -> (r: Result<Keychain, Error>)
    requires
        store.wf(),
    ensures
        !store@.contains_key(name@) ==> r == Err::<Keychain, Error>(Error::NotFound),
        r matches Ok(k) ==> k.name@ == name@ && k.active_passphrase is None,
        store@.contains_key(name@) ==> {
            &&& r matches Ok(k) ==> decrypts_record(password@, store@[name@], k.seed@, string_views(k.saved_passphrases@))
            &&& forall|v: crate::seed::SeedView, saved: Seq<Seq<char>>|
                #[trigger] decrypts_record(password@, store@[name@], v, saved) ==> (r is Ok && r->Ok_0.seed@ == v
                    && string_views(r->Ok_0.saved_passphrases@) == saved)
            &&& r is Err ==> r == Err::<Keychain, Error>(Error::AuthenticationFailed)
        },
{
    let bytes = match store.read(name) {
        Ok(b) => b,
        Err(e) => return Err(e),
    };
    match decrypt_record(password, bytes) {
        Ok((seed, saved)) => Ok(Keychain {
            name: <String as StringExecFns>::from_str(name),
            seed,
            saved_passphrases: saved,
            active_passphrase: None,
        }),
        Err(e) => Err(e),
    }
}

/// Renames a keychain: the store's rule, `NotFound` then `AlreadyExists`.
pub fn rename(store: &mut KeychainStore, name: &str, new_name: &str) -> (r: Result<(), Error>)
    requires
        old(store).wf(),
    ensures
        final(store).wf(),
        !old(store)@.contains_key(name@) ==> r == Err::<(), Error>(Error::NotFound),
        old(store)@.contains_key(name@) && old(store)@.contains_key(new_name@) ==> r == Err::<(), Error>(
            Error::AlreadyExists,
        ),
        r is Ok <==> old(store)@.contains_key(name@) && !old(store)@.contains_key(new_name@),
        r is Ok ==> final(store)@ == old(store)@.remove(name@).insert(new_name@, old(store)@[name@]),
        r is Err ==> final(store)@ == old(store)@,
{
    store.rename(name, new_name)
}

/// Deletes a keychain for good, with no confirmation: callers gate it.
pub fn wipe(store: &mut KeychainStore, name: &str)
    requires
        old(store).wf(),
    ensures
        final(store).wf(),
        final(store)@ == old(store)@.remove(name@),
        !final(store)@.contains_key(name@),
{
    store.delete(name)
}


/// The fingerprint of a stored keychain's master key on a network.
/// `NotFound` and `AuthenticationFailed` as `open` gives them, then
/// `DerivationFailed` exactly when BIP32 rejects the seed bytes.
pub fn identity(store: &KeychainStore, name: &str, password: &str, network: Network) -> (r: Result<[u8; 4], Error>)
    requires
        store.wf(),
    ensures
        !store@.contains_key(name@) ==> r == Err::<[u8; 4], Error>(Error::NotFound),
        store@.contains_key(name@) && (forall|v: SeedView| !#[trigger] decrypts_to(password@, store@[name@], v))
            ==> r == Err::<[u8; 4], Error>(Error::AuthenticationFailed),
        forall|v: SeedView|
            store@.contains_key(name@) && #[trigger] decrypts_to(password@, store@[name@], v) ==> (if spec_root_ok(
                v.0,
                v.1,
            ) {
                r is Ok && r->Ok_0@ == bip32_fingerprint_of(spec_root_xprv(v.0, v.1, network))
            } else {
                r == Err::<[u8; 4], Error>(Error::DerivationFailed)
            }),
{
    let seed = match open(store, name, password) {
        Ok(s) => s,
        Err(e) => return Err(e),
    };
    let root = match root_key(&seed, network) {
        Ok(k) => k,
        Err(e) => return Err(e),
    };
    Ok(root.fingerprint())
}

/// A BIP85 child mnemonic of a stored keychain. `NotFound` and
/// `AuthenticationFailed` as `open` gives them; then `InvalidIndex` for an
/// index of 2^31 or more; then `DerivationFailed` exactly when BIP32 rejects
/// the seed bytes; otherwise the child phrase, of the word count's length.
pub fn derive(
    store: &KeychainStore,
    name: &str,
    password: &str,
    network: Network,
    word_count: WordCount,
    index: u32,
) -> (r: Result<Mnemonic, Error>)
    requires
        store.wf(),
    ensures
        !store@.contains_key(name@) ==> r == Err::<Mnemonic, Error>(Error::NotFound),
        store@.contains_key(name@) && (forall|v: SeedView| !#[trigger] decrypts_to(password@, store@[name@], v))
            ==> r == Err::<Mnemonic, Error>(Error::AuthenticationFailed),
        forall|v: SeedView|
            store@.contains_key(name@) && #[trigger] decrypts_to(password@, store@[name@], v) ==> (if index
                >= 0x8000_0000 {
                r == Err::<Mnemonic, Error>(Error::InvalidIndex)
            } else if spec_root_ok(v.0, v.1) {
                r is Ok && r->Ok_0@ == spec_bip85_phrase(spec_root_xprv(v.0, v.1, network), word_count, index)
                    && word_count_of(r->Ok_0@) == word_count.spec_words()
            } else {
                r == Err::<Mnemonic, Error>(Error::DerivationFailed)
            }),
{
    let seed = match open(store, name, password) {
        Ok(s) => s,
        Err(e) => return Err(e),
    };
    if index >= 0x8000_0000 {
        return Err(Error::InvalidIndex);
    }
    let root = match root_key(&seed, network) {
        Ok(k) => k,
        Err(e) => return Err(e),
    };
    crate::derivation::bip85_child_mnemonic(&root, word_count, index)
}

/// An open keychain: its name, its seed, the passphrases saved with it, and
/// the passphrase that the session applies to every derivation.
pub struct Keychain {
    pub name: String,
    pub seed: Seed,
    pub saved_passphrases: Vec<String>,
    pub active_passphrase: Option<String>,
}


impl Keychain {
    /// A session on a seed: nothing saved, and the seed's own passphrase active.
    pub fn new(name: String, seed: Seed) -> (r: Keychain)
        ensures
            r.name@ == name@,
            r.seed@ == seed@,
            r.saved_passphrases@.len() == 0,
            r.active_passphrase is None,
    {
        Keychain { name, seed, saved_passphrases: Vec::new(), active_passphrase: None }
    }

    fn position(&self, passphrase: &str) -> (r: Option<usize>)
        ensures
            r is None <==> !string_views(self.saved_passphrases@).contains(passphrase@),
            r matches Some(i) ==> i < self.saved_passphrases@.len() && self.saved_passphrases@[i as int]@
                == passphrase@,
    {
        let target = String::from_str(passphrase);
        let mut i: usize = 0;
        while i < self.saved_passphrases.len()
            invariant
                target@ == passphrase@,
                i <= self.saved_passphrases@.len(),
                forall|j: int| 0 <= j < i ==> self.saved_passphrases@[j]@ != passphrase@,
            decreases self.saved_passphrases@.len() - i,
        {
            if self.saved_passphrases[i] == target {
                proof {
                    assert(string_views(self.saved_passphrases@)[i as int] == passphrase@);
                }
                return Some(i);
            }
            i += 1;
        }
        proof {
            if string_views(self.saved_passphrases@).contains(passphrase@) {
                let j = choose|j: int| 0 <= j < self.saved_passphrases@.len() && string_views(self.saved_passphrases@)[j] == passphrase@;
                assert(self.saved_passphrases@[j]@ == passphrase@);
            }
        }
        None
    }

    /// Saves a passphrase once; saving one that is there changes nothing.
    pub fn add_passphrase(&mut self, passphrase: &str)
        ensures
            string_views(old(self).saved_passphrases@).contains(passphrase@) ==> final(self).saved_passphrases@
                == old(self).saved_passphrases@,
            !string_views(old(self).saved_passphrases@).contains(passphrase@) ==> string_views(final(self).saved_passphrases@)
                == string_views(old(self).saved_passphrases@).push(passphrase@),
            final(self).seed@ == old(self).seed@,
            final(self).active_passphrase == old(self).active_passphrase,
            final(self).name == old(self).name,
    {
        if self.position(passphrase).is_none() {
            let ghost before = self.saved_passphrases@;
            self.saved_passphrases.push(String::from_str(passphrase));
            assert(string_views(self.saved_passphrases@) =~= string_views(before).push(passphrase@));
        }
    }

    /// Forgets a saved passphrase, every copy of it; every other one stays saved.
    pub fn remove_passphrase(&mut self, passphrase: &str)
        ensures
            !string_views(final(self).saved_passphrases@).contains(passphrase@),
            forall|p: Seq<char>| #[trigger] string_views(final(self).saved_passphrases@).contains(p)
                <==> (string_views(old(self).saved_passphrases@).contains(p) && p != passphrase@),
            final(self).seed@ == old(self).seed@,
            final(self).active_passphrase == old(self).active_passphrase,
            final(self).name == old(self).name,
    {
        let target = String::from_str(passphrase);
        let mut kept: Vec<String> = Vec::new();
        let mut i: usize = 0;
        while i < self.saved_passphrases.len()
            invariant
                target@ == passphrase@,
                i <= self.saved_passphrases@.len(),
                forall|p: Seq<char>| #[trigger] string_views(kept@).contains(p) <==> (string_views(
                    self.saved_passphrases@.subrange(0, i as int),
                ).contains(p) && p != passphrase@),
            decreases self.saved_passphrases@.len() - i,
        {
            let ghost before = kept@;
            let ghost prefix = self.saved_passphrases@.subrange(0, i as int);
            let item = &self.saved_passphrases[i];
            if *item != target {
                kept.push(item.clone());
            }
            proof {
                let next = self.saved_passphrases@.subrange(0, i as int + 1);
                assert(string_views(next) =~= string_views(prefix).push(item@));
                if item@ != passphrase@ {
                    assert(string_views(kept@) =~= string_views(before).push(item@));
                }
                assert forall|p: Seq<char>| #[trigger] string_views(kept@).contains(p) <==> (string_views(next).contains(p)
                    && p != passphrase@) by {
                    if string_views(next).contains(p) && p != passphrase@ {
                        let j = choose|j: int| 0 <= j < string_views(next).len() && string_views(next)[j] == p;
                        if j < prefix.len() {
                            assert(string_views(prefix)[j] == p);
                        } else {
                            assert(p == item@);
                            assert(string_views(kept@)[before.len() as int] == p);
                        }
                    }
                    if string_views(kept@).contains(p) && item@ != passphrase@ {
                        let j = choose|j: int| 0 <= j < string_views(kept@).len() && string_views(kept@)[j] == p;
                        if j < before.len() {
                            assert(string_views(before)[j] == p);
                        } else {
                            assert(string_views(next)[prefix.len() as int] == p);
                        }
                    }
                    if string_views(prefix).contains(p) {
                        let j = choose|j: int| 0 <= j < string_views(prefix).len() && string_views(prefix)[j] == p;
                        assert(string_views(next)[j] == p);
                    }
                    if string_views(before).contains(p) {
                        let j = choose|j: int| 0 <= j < string_views(before).len() && string_views(before)[j] == p;
                        assert(string_views(kept@)[j] == p);
                    }
                }
            }
            i += 1;
        }
        assert(self.saved_passphrases@.subrange(0, self.saved_passphrases@.len() as int) =~= self.saved_passphrases@);
        self.saved_passphrases = kept;
    }

    /// The passphrase that derivations use: the active one when set, else the seed's own.
    pub open spec fn spec_effective_passphrase(&self) -> Option<Seq<char>> {
        match self.active_passphrase {
            Some(p) => Some(p@),
            None => self.seed@.1,
        }
    }

    /// The master key of the session: the seed's phrase under the effective passphrase.
    pub fn root_key(&self, network: Network) -> (r: Result<RootKey, Error>)
        ensures
            r matches Ok(k) ==> k@ == spec_root_xprv(self.seed@.0, self.spec_effective_passphrase(), network),
            r is Err ==> r == Err::<RootKey, Error>(Error::DerivationFailed),
    {
        match &self.active_passphrase {
            Some(p) => root_key_from(self.seed.mnemonic(), p.as_str(), network),
            None => root_key(&self.seed, network),
        }
    }

    /// Sets or clears the session's active passphrase; the stored seed and the
    /// saved passphrases are untouched.
    pub fn apply_passphrase(&mut self, passphrase: Option<String>)
        ensures
            final(self).active_passphrase == passphrase,
            final(self).seed@ == old(self).seed@,
            final(self).saved_passphrases == old(self).saved_passphrases,
            final(self).name == old(self).name,
    {
        self.active_passphrase = passphrase;
    }
}

} // verus!
