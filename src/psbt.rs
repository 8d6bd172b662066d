//! PSBT decoding and the signing state machine.

use vstd::prelude::*;
use vstd::string::*;

use std::str::FromStr;

use bdk::database::MemoryDatabase;
use bitcoin::psbt::PartiallySignedTransaction;
use bitcoin::util::bip32;

use crate::derivation::{bip32_depth_of, bip32_fingerprint_of, bip32_xprv_parses, RootKey};
use crate::descriptor::{child_text, spec_check_path, template, ChildNumber, DerivationPath, ScriptType};
use crate::error::Error;
use crate::types::Network;

verus! {

/// The PSBT type of `bitcoin`, carried through opaque.
#[verifier::external_type_specification]
#[verifier::external_body]
pub struct ExPartiallySignedTransaction(PartiallySignedTransaction);

/// Whether `PartiallySignedTransaction::from_str` accepts a base64 text.
pub uninterp spec fn psbt_parses(text: Seq<char>) -> bool;

/// Standard base64 (with padding) of some bytes.
pub uninterp spec fn base64_of(bytes: Seq<u8>) -> Seq<char>;

/// Relies on `PartiallySignedTransaction::from_str`, which reads base64.
#[verifier::external_body]
fn parse_psbt(text: &str) -> (r: Option<PartiallySignedTransaction>)
    ensures
        r is Some <==> psbt_parses(text@),
{
    PartiallySignedTransaction::from_str(text).ok()
}

/// Relies on `base64::encode`.
#[verifier::external_body]
fn base64_encode(bytes: &[u8]) -> (r: String)
    ensures
        r@ == base64_of(bytes@),
{
    base64::encode(bytes)
}

/// Relies on the `Display` of `PartiallySignedTransaction`: base64 of its bytes.
#[verifier::external_body]
fn psbt_to_base64(psbt: &PartiallySignedTransaction) -> String {
    psbt.to_string()
}

/// Relies on `bitcoin::consensus::serialize` of a PSBT: its binary form.
#[verifier::external_body]
fn psbt_serialize(psbt: &PartiallySignedTransaction) -> Vec<u8> {
    bitcoin::consensus::serialize(psbt)
}

/// One input map of a `bitcoin` PSBT, carried through opaque.
#[verifier::external_type_specification]
#[verifier::external_body]
pub struct ExPsbtInput(bitcoin::psbt::Input);

/// Relies on the `inputs` field of a PSBT.
#[verifier::external_body]
fn psbt_inputs(psbt: &PartiallySignedTransaction) -> &[bitcoin::psbt::Input] {
    psbt.inputs.as_slice()
}

/// The key origins an input declares: master fingerprint and derivation path.
#[derive(Debug, Clone)]
pub struct KeyOrigin {
    pub fingerprint: [u8; 4],
    pub path: Vec<ChildNumber>,
}

/// Relies on the `bip32_derivation` and `tap_key_origins` maps of a PSBT
/// input, read in their order; each origin's steps are copied one for one.
#[verifier::external_body]
fn input_origins(input: &bitcoin::psbt::Input) -> Vec<KeyOrigin> {
    let ecdsa = input.bip32_derivation.values();
    let taproot = input.tap_key_origins.values().map(|(_, source)| source);
    ecdsa.chain(taproot).map(|(fp, path)| KeyOrigin {
        fingerprint: fp.into_bytes(),
        path: path.into_iter().map(|c| match *c {
            bip32::ChildNumber::Hardened { index } => ChildNumber { index, hardened: true },
            bip32::ChildNumber::Normal { index } => ChildNumber { index, hardened: false },
        }).collect(),
    }).collect()
}

/// Relies on the `final_script_sig` and `final_script_witness` fields of a
/// PSBT input: whether each is set.
#[verifier::external_body]
fn input_final_fields(input: &bitcoin::psbt::Input) -> (bool, bool) {
    (input.final_script_sig.is_some(), input.final_script_witness.is_some())
}

/// Relies on `bdk::Wallet::new` over a `MemoryDatabase` and `Wallet::sign`
/// with the default options: it adds the signatures that the descriptor's
/// keys can make and reports whether every input could then be finalized.
/// The descriptor's only key is a depth-0 `xprv` with a path of at most 255
/// steps and no wildcard; the signer (`SignerWrapper<DescriptorXKey<_>>`)
/// derives only along an input path equal to that path (miniscript's
/// `DescriptorXKey::matches`), so its BIP32 derivation stays within the `u8`
/// depth.
#[verifier::external_body]
fn psbt_sign(psbt: &mut PartiallySignedTransaction, descriptor: &str, network: Network) -> Option<bool>
    requires
        exists|root: Seq<char>, path: Seq<ChildNumber>, script: ScriptType|
            descriptor@ == #[trigger] signing_descriptor_text(root, path, script) && path.len() <= 255
                && bip32_xprv_parses(root) && bip32_depth_of(root) == 0,
{
    let net = match network {
        Network::Bitcoin => bitcoin::Network::Bitcoin,
        Network::Testnet => bitcoin::Network::Testnet,
        Network::Signet => bitcoin::Network::Signet,
        Network::Regtest => bitcoin::Network::Regtest,
    };
    let wallet = bdk::Wallet::new(descriptor, None, net, MemoryDatabase::new()).ok()?;
    wallet.sign(psbt, bdk::SignOptions::default()).ok()
}


/// Where a PSBT stands in signing.
#[derive(Debug, Clone, Copy, PartialEq, Eq, Structural)]
pub enum SignState {
    Loaded,
    PartiallySigned,
    Finalized,
    SigningFailed,
}

/// What one call of `sign` did.
#[derive(Debug, Clone, Copy, PartialEq, Eq, Structural)]
pub struct SignReport {
    /// Every input is complete and the PSBT is finalized.
    pub finalized: bool,
    /// Distinct key paths of this seed that the signer was run with.
    pub keys_applied: usize,
}

/// The state after a signing round: a finalized PSBT stays finalized; a
/// signer failure ends in `SigningFailed`; a round with no key of the seed
/// leaves the PSBT partially signed; otherwise the signer's verdict decides.
pub open spec fn spec_next_state(state: SignState, keys_applied: nat, outcome: Option<bool>) -> SignState {
    if state == SignState::Finalized {
        SignState::Finalized
    } else if keys_applied == 0 {
        SignState::PartiallySigned
    } else {
        match outcome {
            None => SignState::SigningFailed,
            Some(true) => SignState::Finalized,
            Some(false) => SignState::PartiallySigned,
        }
    }
}

/// The transition of a signing round, from the signer's outcome (`None` when it failed).
pub fn next_state(state: SignState, keys_applied: usize, outcome: Option<bool>) -> (r: SignState)
    ensures
        r == spec_next_state(state, keys_applied as nat, outcome),
{
    if state == SignState::Finalized {
        SignState::Finalized
    } else if keys_applied == 0 {
        SignState::PartiallySigned
    } else {
        match outcome {
            None => SignState::SigningFailed,
            Some(true) => SignState::Finalized,
            Some(false) => SignState::PartiallySigned,
        }
    }
}

/// `/step/step/...` of a path, each step as in a key origin.
pub open spec fn path_suffix(path: Seq<ChildNumber>) -> Seq<char>
    decreases path.len(),
{
    if path.len() == 0 {
        Seq::<char>::empty()
    } else {
        path_suffix(path.drop_last()) + seq!['/'] + child_text(path.last())
    }
}

/// The descriptor a signer uses for one key path: the master `xprv` followed
/// by the whole path, in the template of the path's purpose.
pub open spec fn signing_descriptor_text(xprv: Seq<char>, path: Seq<ChildNumber>, script: ScriptType) -> Seq<char> {
    template(script, xprv + path_suffix(path))
}

pub(crate) fn push_path_suffix(out: &mut String, path: &Vec<ChildNumber>)
    ensures
        final(out)@ == old(out)@ + path_suffix(path@),
{
    let mut i: usize = 0;
    proof {
        reveal_strlit("/");
        assert(path@.subrange(0, 0) =~= Seq::<ChildNumber>::empty());
    }
    while i < path.len()
        invariant
            i <= path@.len(),
            out@ == old(out)@ + path_suffix(path@.subrange(0, i as int)),
        decreases path@.len() - i,
    {
        proof {
            reveal_strlit("/");
        }
        out.append("/");
        crate::descriptor::push_child(out, path[i]);
        proof {
            let p = path@.subrange(0, i as int + 1);
            assert(p.drop_last() =~= path@.subrange(0, i as int));
            assert(p.last() == path@[i as int]);
            assert(path_suffix(p) == path_suffix(p.drop_last()) + seq!['/'] + child_text(p.last()));
            assert(out@ =~= old(out)@ + path_suffix(p));
        }
        i += 1;
    }
    assert(path@.subrange(0, path@.len() as int) =~= path@);
}

fn signing_descriptor(xprv: &str, path: &Vec<ChildNumber>, script: ScriptType) -> (r: String)
    ensures
        r@ == signing_descriptor_text(xprv@, path@, script),
{
    let mut key = String::new();
    key.append(xprv);
    push_path_suffix(&mut key, path);
    assert(key@ =~= xprv@ + path_suffix(path@));
    crate::descriptor::wrap_template(script, key.as_str())
}

fn copy_path(p: &Vec<ChildNumber>) -> (r: Vec<ChildNumber>)
    ensures
        r@ == p@,
{
    let mut out: Vec<ChildNumber> = Vec::new();
    let mut i: usize = 0;
    while i < p.len()
        invariant
            i <= p@.len(),
            out@ == p@.subrange(0, i as int),
        decreases p@.len() - i,
    {
        out.push(p[i]);
        i += 1;
        assert(out@ =~= p@.subrange(0, i as int));
    }
    assert(p@.subrange(0, p@.len() as int) =~= p@);
    out
}

fn same_path(a: &Vec<ChildNumber>, b: &Vec<ChildNumber>) -> (r: bool)
    ensures
        r == (a@ == b@),
{
    if a.len() != b.len() {
        return false;
    }
    let mut i: usize = 0;
    while i < a.len()
        invariant
            a@.len() == b@.len(),
            i <= a@.len(),
            forall|j: int| 0 <= j < i ==> a@[j] == b@[j],
        decreases a@.len() - i,
    {
        if a[i] != b[i] {
            return false;
        }
        i += 1;
    }
    assert(a@ =~= b@);
    true
}

/// An origin belongs to a root key when it names the key's fingerprint and a
/// path of a supported purpose and coin.
pub open spec fn origin_of(o: KeyOrigin, fingerprint: Seq<u8>) -> bool {
    o.fingerprint@ == fingerprint && spec_check_path(o.path@) is Ok && o.path@.len() <= 255
}

/// Some input declares a key of the fingerprint on a supported path.
pub open spec fn has_origin(origins: Seq<KeyOrigin>, fingerprint: Seq<u8>) -> bool {
    exists|k: int| 0 <= k < origins.len() && origin_of(#[trigger] origins[k], fingerprint)
}

/// `path` is the path of one of the origins that belong to a fingerprint.
pub open spec fn from_origin(path: Seq<ChildNumber>, origins: Seq<KeyOrigin>, fingerprint: Seq<u8>) -> bool {
    exists|k: int| 0 <= k < origins.len() && origin_of(#[trigger] origins[k], fingerprint) && origins[k].path@ == path
}

/// The distinct paths of the origins that belong to a fingerprint, in order of appearance.
pub fn signing_paths(origins: &Vec<KeyOrigin>, fingerprint: &[u8; 4]) -> (r: Vec<Vec<ChildNumber>>)
    ensures
        forall|i: int| 0 <= i < r@.len() ==> from_origin(#[trigger] r@[i]@, origins@, fingerprint@),
        forall|j: int| 0 <= j < origins@.len() && origin_of(#[trigger] origins@[j], fingerprint@) ==> exists|i: int|
            0 <= i < r@.len() && r@[i]@ == origins@[j].path@,
        forall|a: int, b: int| 0 <= a < r@.len() && 0 <= b < r@.len() && a != b ==> r@[a]@ != r@[b]@,
{
    let mut out: Vec<Vec<ChildNumber>> = Vec::new();
    let ghost mut source: Seq<int> = Seq::empty();
    let mut j: usize = 0;
    while j < origins.len()
        invariant
            j <= origins@.len(),
            source.len() == out@.len(),
            forall|i: int| #![trigger out@[i]] #![trigger source[i]] 0 <= i < out@.len() ==> 0 <= source[i] < origins@.len()
                && origin_of(origins@[source[i]], fingerprint@) && origins@[source[i]].path@ == out@[i]@,
            forall|k: int| 0 <= k < j && origin_of(#[trigger] origins@[k], fingerprint@) ==> exists|i: int|
                0 <= i < out@.len() && out@[i]@ == origins@[k].path@,
            forall|a: int, b: int| 0 <= a < out@.len() && 0 <= b < out@.len() && a != b ==> out@[a]@ != out@[b]@,
        decreases origins@.len() - j,
    {
        let o = &origins[j];
        let ghost before = out@;
        let ghost source_before = source;
        let ours = o.fingerprint[0] == fingerprint[0] && o.fingerprint[1] == fingerprint[1]
            && o.fingerprint[2] == fingerprint[2] && o.fingerprint[3] == fingerprint[3];
        let supported = o.path.len() <= 255 && crate::descriptor::check_path(
            &DerivationPath { children: copy_path(&o.path) },
        ).is_ok();
        let mut present = false;
        if ours && supported {
            assert(o.fingerprint@ =~= fingerprint@);
            let mut i: usize = 0;
            while i < out.len()
                invariant
                    out@ == before,
                    i <= out@.len(),
                    present ==> exists|a: int| 0 <= a < out@.len() && #[trigger] out@[a]@ == o.path@,
                    !present ==> forall|a: int| 0 <= a < i ==> #[trigger] out@[a]@ != o.path@,
                decreases out@.len() - i,
            {
                if same_path(&out[i], &o.path) {
                    present = true;
                }
                i += 1;
            }
            if !present {
                out.push(copy_path(&o.path));
                proof {
                    source = source.push(j as int);
                }
            }
        }
        proof {
            assert(source.len() == out@.len());
            assert(forall|i: int| 0 <= i < before.len() ==> out@[i] == before[i]);
            assert forall|i: int| #![trigger out@[i]] #![trigger source[i]] 0 <= i < out@.len() implies 0 <= source[i] < origins@.len()
                && origin_of(origins@[source[i]], fingerprint@) && origins@[source[i]].path@ == out@[i]@ by {
                if i < before.len() {
                    assert(out@[i] == before[i]);
                    assert(source[i] == source_before[i]);
                    assert(0 <= source_before[i] < origins@.len());
                }
            }
            assert forall|k: int| 0 <= k < j + 1 && origin_of(#[trigger] origins@[k], fingerprint@) implies exists|i: int|
                0 <= i < out@.len() && out@[i]@ == origins@[k].path@ by {
                if k < j {
                    let i = choose|i: int| 0 <= i < before.len() && before[i]@ == origins@[k].path@;
                    assert(out@[i]@ == origins@[k].path@);
                } else {
                    assert(o.fingerprint@[0] == fingerprint@[0] && o.fingerprint@[1] == fingerprint@[1]
                        && o.fingerprint@[2] == fingerprint@[2] && o.fingerprint@[3] == fingerprint@[3]);
                    if present {
                        let a = choose|a: int| 0 <= a < out@.len() && #[trigger] out@[a]@ == o.path@;
                        assert(out@[a]@ == origins@[k].path@);
                    } else {
                        assert(out@[before.len() as int]@ == origins@[k].path@);
                    }
                }
            }
        }
        j += 1;
    }
    proof {
        assert forall|i: int| 0 <= i < out@.len() implies from_origin(#[trigger] out@[i]@, origins@, fingerprint@) by {
            let k = source[i];
            assert(origin_of(origins@[k], fingerprint@) && origins@[k].path@ == out@[i]@);
        }
    }
    out
}


/// The descriptors the signer is run with, one per path, each in the template
/// of its path's purpose.
pub fn signing_descriptors(root: &RootKey, paths: &Vec<Vec<ChildNumber>>) -> (r: Vec<String>)
    requires
        forall|i: int| 0 <= i < paths@.len() ==> spec_check_path(#[trigger] paths@[i]@) is Ok,
        forall|i: int| 0 <= i < paths@.len() ==> (#[trigger] paths@[i]@).len() <= 255,
    ensures
        r@.len() == paths@.len(),
        forall|i: int|
            0 <= i < paths@.len() ==> #[trigger] r@[i]@ == signing_descriptor_text(
                root@,
                paths@[i]@,
                spec_check_path(paths@[i]@)->Ok_0,
            ),
        bip32_xprv_parses(root@),
        bip32_depth_of(root@) == 0,
{
    let xprv: &str = root.as_str();
    let mut out: Vec<String> = Vec::new();
    let mut i: usize = 0;
    while i < paths.len()
        invariant
            xprv@ == root@,
            i <= paths@.len(),
            out@.len() == i,
            forall|j: int| 0 <= j < paths@.len() ==> spec_check_path(#[trigger] paths@[j]@) is Ok,
            forall|j: int|
                0 <= j < i ==> #[trigger] out@[j]@ == signing_descriptor_text(
                    root@,
                    paths@[j]@,
                    spec_check_path(paths@[j]@)->Ok_0,
                ),
        decreases paths@.len() - i,
    {
        let path = &paths[i];
        assert(spec_check_path(paths@[i as int]@) is Ok);
        let script = crate::descriptor::check_path(&DerivationPath { children: copy_path(path) }).unwrap();
        out.push(signing_descriptor(xprv, path, script));
        i += 1;
    }
    out
}

/// The outcome of a signing round from the signer's verdicts, one per
/// descriptor in order, the list ending at the first failure (`None`): any
/// failure is `SigningFailed`; otherwise the last verdict says whether the
/// PSBT is finalized.
pub open spec fn spec_sign_round(keys: nat, outcomes: Seq<Option<bool>>) -> (SignState, Result<SignReport, Error>) {
    if outcomes.contains(None) {
        (SignState::SigningFailed, Err(Error::SigningFailed))
    } else {
        let done = outcomes.len() > 0 && outcomes.last() == Some(true);
        (
            if done { SignState::Finalized } else { SignState::PartiallySigned },
            Ok(SignReport { finalized: done, keys_applied: keys as usize }),
        )
    }
}

/// A list of verdicts as the signing loop gathers them for `keys` descriptors:
/// all `Some` and one per descriptor, or stopped at the first `None`.
pub open spec fn gathered(keys: nat, outcomes: Seq<Option<bool>>) -> bool {
    &&& 0 < outcomes.len() <= keys
    &&& forall|i: int| 0 <= i < outcomes.len() - 1 ==> #[trigger] outcomes[i] is Some
    &&& (outcomes.last() is Some ==> outcomes.len() == keys)
}

/// The state and result of a signing round from the signer's verdicts.
pub fn sign_round(keys: usize, outcomes: &Vec<Option<bool>>) -> (r: (SignState, Result<SignReport, Error>))
    ensures
        r == spec_sign_round(keys as nat, outcomes@),
{
    let mut i: usize = 0;
    while i < outcomes.len()
        invariant
            i <= outcomes@.len(),
            forall|j: int| 0 <= j < i ==> #[trigger] outcomes@[j] is Some,
        decreases outcomes@.len() - i,
    {
        if outcomes[i].is_none() {
            assert(outcomes@[i as int] == None::<bool>);
            return (SignState::SigningFailed, Err(Error::SigningFailed));
        }
        i += 1;
    }
    assert(!outcomes@.contains(None)) by {
        if outcomes@.contains(None) {
            let j = choose|j: int| 0 <= j < outcomes@.len() && outcomes@[j] == None::<bool>;
            assert(outcomes@[j] is Some);
        }
    }
    let n = outcomes.len();
    let done = n > 0 && outcomes[n - 1] == Some(true);
    let state = if done { SignState::Finalized } else { SignState::PartiallySigned };
    (state, Ok(SignReport { finalized: done, keys_applied: keys }))
}

/// A decoded PSBT, the network it is for, the key origins its inputs
/// declare, and where it stands in signing.
pub struct Psbt {
    inner: PartiallySignedTransaction,
    network: Network,
    origins: Vec<KeyOrigin>,
    state: SignState,
}

/// The key origins of every input, input by input.
fn collect_origins(inner: &PartiallySignedTransaction) -> Vec<KeyOrigin> {
    let inputs = psbt_inputs(inner);
    let mut all: Vec<KeyOrigin> = Vec::new();
    let mut i: usize = 0;
    while i < inputs.len()
        decreases inputs@.len() - i,
    {
        let mut found = input_origins(&inputs[i]);
        all.append(&mut found);
        i += 1;
    }
    all
}

/// Whether the PSBT has inputs and every one of them is finalized.
fn all_finalized(inner: &PartiallySignedTransaction) -> bool {
    let inputs = psbt_inputs(inner);
    if inputs.len() == 0 {
        return false;
    }
    let mut i: usize = 0;
    while i < inputs.len()
        decreases inputs@.len() - i,
    {
        let (script_sig, witness) = input_final_fields(&inputs[i]);
        if !script_sig && !witness {
            return false;
        }
        i += 1;
    }
    true
}

impl Psbt {
    pub closed spec fn spec_state(&self) -> SignState {
        self.state
    }

    pub closed spec fn spec_network(&self) -> Network {
        self.network
    }

    /// The key origins that the inputs declare, as read at decoding.
    pub closed spec fn spec_origins(&self) -> Seq<KeyOrigin> {
        self.origins@
    }

    /// The transaction data, opaque to the contracts.
    pub closed spec fn spec_inner(&self) -> PartiallySignedTransaction {
        self.inner
    }

    /// Decodes a base64 PSBT; `ParseError` exactly when it does not parse. A
    /// PSBT whose inputs are all finalized starts `Finalized`, any other `Loaded`.
    pub fn decode(text: &str, network: Network) -> (r: Result<Psbt, Error>)
        ensures
            r is Ok <==> psbt_parses(text@),
            r matches Ok(p) ==> (p.spec_state() == SignState::Loaded || p.spec_state() == SignState::Finalized)
                && p.spec_network() == network,
            r is Err ==> r == Err::<Psbt, Error>(Error::ParseError),
    {
        match parse_psbt(text) {
            Some(inner) => {
                let origins = collect_origins(&inner);
                let state = if all_finalized(&inner) { SignState::Finalized } else { SignState::Loaded };
                Ok(Psbt { inner, network, origins, state })
            },
            None => Err(Error::ParseError),
        }
    }

    /// Decodes the binary form of a PSBT, as read from a file, through its
    /// base64 text; `ParseError` exactly when that does not parse.
    pub fn decode_bytes(content: &[u8], network: Network) -> (r: Result<Psbt, Error>)
        ensures
            r is Ok <==> psbt_parses(base64_of(content@)),
            r matches Ok(p) ==> (p.spec_state() == SignState::Loaded || p.spec_state() == SignState::Finalized)
                && p.spec_network() == network,
            r is Err ==> r == Err::<Psbt, Error>(Error::ParseError),
    {
        let text = base64_encode(content);
        Psbt::decode(text.as_str(), network)
    }

    pub fn state(&self) -> (r: SignState)
        ensures
            r == self.spec_state(),
    {
        self.state
    }

    pub fn network(&self) -> (r: Network)
        ensures
            r == self.spec_network(),
    {
        self.network
    }

    /// The key origins that the inputs declare.
    pub fn origins(&self) -> (r: &Vec<KeyOrigin>)
        ensures
            r@ == self.spec_origins(),
    {
        &self.origins
    }

    /// The PSBT as base64 text.
    pub fn to_base64(&self) -> String {
        psbt_to_base64(&self.inner)
    }

    /// The PSBT in binary form, as it is saved.
    pub fn to_bytes(&self) -> Vec<u8> {
        psbt_serialize(&self.inner)
    }

    /// Signs every input that declares a key of `root` and then tries to
    /// finalize.
    ///
    /// A finalized PSBT is left as it is and reports `true`. When no input
    /// declares a key of the root on a supported path, nothing is signed: the
    /// transaction is unchanged, the state is `PartiallySigned`, and the report
    /// says `false` with no key applied. Otherwise the signer runs once per
    /// distinct path, and `sign_round` turns its verdicts into the result: a
    /// signer failure is `SigningFailed`, else the last verdict says whether
    /// every input is now finalized.
    pub fn sign(&mut self, root: &RootKey) -> (r: Result<SignReport, Error>)
        ensures
            final(self).spec_network() == old(self).spec_network(),
            final(self).spec_origins() == old(self).spec_origins(),
            old(self).spec_state() == SignState::Finalized ==> r == Ok::<SignReport, Error>(
                SignReport { finalized: true, keys_applied: 0 },
            ) && final(self).spec_inner() == old(self).spec_inner() && final(self).spec_state()
                == SignState::Finalized,
            old(self).spec_state() != SignState::Finalized && !has_origin(
                old(self).spec_origins(),
                bip32_fingerprint_of(root@),
            ) ==> r == Ok::<SignReport, Error>(SignReport { finalized: false, keys_applied: 0 })
                && final(self).spec_inner() == old(self).spec_inner() && final(self).spec_state()
                == SignState::PartiallySigned,
            old(self).spec_state() != SignState::Finalized && has_origin(
                old(self).spec_origins(),
                bip32_fingerprint_of(root@),
            ) ==> exists|keys: nat, outcomes: Seq<Option<bool>>|
                keys > 0 && gathered(keys, outcomes) && #[trigger] spec_sign_round(keys, outcomes) == (
                    final(self).spec_state(),
                    r,
                ),
    {
        if self.state == SignState::Finalized {
            return Ok(SignReport { finalized: true, keys_applied: 0 });
        }
        let fingerprint = root.fingerprint();
        let paths = signing_paths(&self.origins, &fingerprint);
        if paths.len() == 0 {
            proof {
                if has_origin(self.origins@, fingerprint@) {
                    let k = choose|k: int| 0 <= k < self.origins@.len() && origin_of(#[trigger] self.origins@[k], fingerprint@);
                    assert(origin_of(self.origins@[k], fingerprint@));
                }
            }
            self.state = SignState::PartiallySigned;
            return Ok(SignReport { finalized: false, keys_applied: 0 });
        }
        let ghost origins = self.origins@;
        proof {
            assert forall|i: int| 0 <= i < paths@.len() implies spec_check_path(#[trigger] paths@[i]@) is Ok
                && paths@[i]@.len() <= 255 by {
                assert(from_origin(paths@[i]@, origins, fingerprint@));
                let k = choose|k: int|
                    0 <= k < origins.len() && origin_of(#[trigger] origins[k], fingerprint@) && origins[k].path@
                        == paths@[i]@;
            }
            assert(from_origin(paths@[0]@, origins, fingerprint@));
            let k = choose|k: int|
                0 <= k < origins.len() && origin_of(#[trigger] origins[k], fingerprint@) && origins[k].path@ == paths@[0]@;
            assert(has_origin(origins, fingerprint@));
        }
        let descriptors = signing_descriptors(root, &paths);
        let mut outcomes: Vec<Option<bool>> = Vec::new();
        let mut i: usize = 0;
        let mut failed = false;
        while i < descriptors.len() && !failed
            invariant
                self.network == old(self).network,
                self.origins@ == origins,
                descriptors@.len() == paths@.len(),
                paths@.len() > 0,
                i + (if failed { 1int } else { 0int }) <= descriptors@.len(),
                outcomes@.len() == i + (if failed { 1int } else { 0int }),
                failed ==> outcomes@[i as int] is None,
                forall|j: int| 0 <= j < i ==> #[trigger] outcomes@[j] is Some,
                forall|j: int| 0 <= j < paths@.len() ==> (#[trigger] paths@[j]@).len() <= 255,
                forall|j: int| 0 <= j < paths@.len() ==> spec_check_path(#[trigger] paths@[j]@) is Ok,
                forall|j: int|
                    0 <= j < paths@.len() ==> #[trigger] descriptors@[j]@ == signing_descriptor_text(
                        root@,
                        paths@[j]@,
                        spec_check_path(paths@[j]@)->Ok_0,
                    ),
                bip32_xprv_parses(root@),
                bip32_depth_of(root@) == 0,
            decreases descriptors@.len() - i - (if failed { 1int } else { 0int }),
        {
            proof {
                assert(descriptors@[i as int]@ == signing_descriptor_text(
                    root@,
                    paths@[i as int]@,
                    spec_check_path(paths@[i as int]@)->Ok_0,
                ));
            }
            let verdict = psbt_sign(&mut self.inner, descriptors[i].as_str(), self.network);
            outcomes.push(verdict);
            if verdict.is_none() {
                failed = true;
            } else {
                i += 1;
            }
        }
        let (state, result) = sign_round(paths.len(), &outcomes);
        proof {
            assert(gathered(paths@.len() as nat, outcomes@));
        }
        self.state = state;
        result
    }
}

/// The name a finalized PSBT is saved under: the stem of the file it came from with
/// `-signed.psbt` appended.
pub fn signed_file_name(stem: &str) -> (r: String)
    ensures
        r@ == stem@ + seq!['-', 's', 'i', 'g', 'n', 'e', 'd', '.', 'p', 's', 'b', 't'],
{
    let mut out = String::new();
    out.append(stem);
    proof {
        reveal_strlit("-signed.psbt");
    }
    out.append("-signed.psbt");
    out
}

/// Where a PSBT goes after signing: a finalized one is written to a new
/// "signed" file, created exclusively; a partial one overwrites its own file
/// so that another key can resume.
#[derive(Debug, Clone, Copy, PartialEq, Eq, Structural)]
pub enum SaveAction {
    CreateSigned,
    OverwriteInPlace,
}

pub fn save_action(state: SignState) -> (r: SaveAction)
    ensures
        r == (if state == SignState::Finalized { SaveAction::CreateSigned } else { SaveAction::OverwriteInPlace }),
{
    if state == SignState::Finalized {
        SaveAction::CreateSigned
    } else {
        SaveAction::OverwriteInPlace
    }
}

} // verus!
