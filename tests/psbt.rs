use std::str::FromStr;

use bitcoin::psbt::PartiallySignedTransaction;
use bitcoin::secp256k1::Secp256k1;
use bitcoin::util::bip32::{DerivationPath as Bip32Path, ExtendedPrivKey, ExtendedPubKey};
use bitcoin::{OutPoint, PackedLockTime, Script, Sequence, Transaction, TxIn, TxOut, Witness};
use keechain::derivation::{root_key, RootKey};
use keechain::error::Error;
use keechain::psbt::{
    next_state, save_action, sign_round, signed_file_name, signing_descriptors, signing_paths, KeyOrigin, Psbt, SaveAction, SignReport,
    SignState,
};
use keechain::seed::{Mnemonic, Seed};
use keechain::types::Network;

const ABANDON: &str = "abandon abandon abandon abandon abandon abandon abandon abandon abandon abandon abandon about";
const OTHER_ROOT: &str = "xprv9s21ZrQH143K2LBWUUQRFXhucrQqBpKdRRxNVq2zBqsx8HVqFk2uYo8kmbaLLHRdqtQpUm98uKfu3vca1LqdGhUtyoFnCNkfmXRyPXLjbKb";

fn abandon_root() -> RootKey {
    let seed = Seed::new(Mnemonic::parse(ABANDON).unwrap(), None).unwrap();
    root_key(&seed, Network::Bitcoin).unwrap()
}

/// A PSBT spending one P2WPKH output of `root` at `path`, with its key origin.
fn psbt_spending(root: &RootKey, path: &str) -> PartiallySignedTransaction {
    let secp = Secp256k1::new();
    let master = ExtendedPrivKey::from_str(root.as_str()).unwrap();
    let path = Bip32Path::from_str(path).unwrap();
    let child = master.derive_priv(&secp, &path).unwrap();
    let public = bitcoin::PublicKey::new(ExtendedPubKey::from_priv(&secp, &child).public_key);
    let script = Script::new_v0_p2wpkh(&public.wpubkey_hash().unwrap());
    let previous = Transaction {
        version: 2,
        lock_time: PackedLockTime(0),
        input: vec![TxIn::default()],
        output: vec![TxOut { value: 100_000, script_pubkey: script.clone() }],
    };
    let spend = Transaction {
        version: 2,
        lock_time: PackedLockTime(0),
        input: vec![TxIn {
            previous_output: OutPoint { txid: previous.txid(), vout: 0 },
            script_sig: Script::new(),
            sequence: Sequence::ENABLE_RBF_NO_LOCKTIME,
            witness: Witness::default(),
        }],
        output: vec![TxOut { value: 90_000, script_pubkey: script }],
    };
    let mut psbt = PartiallySignedTransaction::from_unsigned_tx(spend).unwrap();
    psbt.inputs[0].witness_utxo = Some(previous.output[0].clone());
    psbt.inputs[0].non_witness_utxo = Some(previous);
    psbt.inputs[0].bip32_derivation.insert(public.inner, (master.fingerprint(&secp), path));
    psbt
}

#[test]
fn decode_rejects_garbage() {
    assert_eq!(Psbt::decode("not a psbt", Network::Bitcoin).err(), Some(Error::ParseError));
    assert_eq!(Psbt::decode_bytes(&[1, 2, 3], Network::Bitcoin).err(), Some(Error::ParseError));
}

#[test]
fn decode_text_and_bytes() {
    let psbt = psbt_spending(&abandon_root(), "m/84'/0'/0'/0/0");
    let a = Psbt::decode(&psbt.to_string(), Network::Testnet).unwrap();
    assert_eq!(a.state(), SignState::Loaded);
    assert_eq!(a.network(), Network::Testnet);
    assert_eq!(a.to_base64(), psbt.to_string());
    let b = Psbt::decode_bytes(&bitcoin::consensus::serialize(&psbt), Network::Bitcoin).unwrap();
    assert_eq!(b.to_bytes(), bitcoin::consensus::serialize(&psbt));
}

#[test]
fn sign_without_our_keys_changes_nothing() {
    let text = psbt_spending(&abandon_root(), "m/84'/0'/0'/0/0").to_string();
    let mut psbt = Psbt::decode(&text, Network::Bitcoin).unwrap();
    let other = RootKey::parse(OTHER_ROOT).unwrap();
    let report = psbt.sign(&other).unwrap();
    assert_eq!(report, SignReport { finalized: false, keys_applied: 0 });
    assert_eq!(psbt.state(), SignState::PartiallySigned);
    assert_eq!(psbt.to_base64(), text);
}

#[test]
fn sign_with_our_key_finalizes_and_resign_is_a_no_op() {
    let root = abandon_root();
    let text = psbt_spending(&root, "m/84'/0'/0'/0/0").to_string();
    let mut psbt = Psbt::decode(&text, Network::Bitcoin).unwrap();
    let report = psbt.sign(&root).unwrap();
    assert_eq!(report, SignReport { finalized: true, keys_applied: 1 });
    assert_eq!(psbt.state(), SignState::Finalized);
    let signed = psbt.to_base64();
    assert_ne!(signed, text);
    let parsed = PartiallySignedTransaction::from_str(&signed).unwrap();
    assert!(parsed.inputs[0].final_script_witness.is_some());
    let again = psbt.sign(&root).unwrap();
    assert_eq!(again, SignReport { finalized: true, keys_applied: 0 });
    assert_eq!(psbt.to_base64(), signed);
    // A file that already holds the finalized PSBT decodes as finalized, and
    // signing it again with any key is a no-op.
    let mut reloaded = Psbt::decode(&signed, Network::Bitcoin).unwrap();
    assert_eq!(reloaded.state(), SignState::Finalized);
    let other = RootKey::parse(OTHER_ROOT).unwrap();
    assert_eq!(reloaded.sign(&other).unwrap(), SignReport { finalized: true, keys_applied: 0 });
    assert_eq!(reloaded.to_base64(), signed);
}

#[test]
fn decode_keeps_the_origins() {
    let root = abandon_root();
    let psbt = Psbt::decode(&psbt_spending(&root, "m/84'/0'/0'/0/0").to_string(), Network::Bitcoin).unwrap();
    assert_eq!(psbt.origins().len(), 1);
    assert_eq!(psbt.origins()[0].fingerprint, root.fingerprint());
    assert_eq!(psbt.origins()[0].path, vec![h(84), h(0), h(0), n(0), n(0)]);
}

#[test]
fn sign_rounds() {
    assert_eq!(sign_round(2, &vec![Some(false), Some(true)]), (SignState::Finalized, Ok(SignReport { finalized: true, keys_applied: 2 })));
    assert_eq!(sign_round(2, &vec![Some(true), Some(false)]), (SignState::PartiallySigned, Ok(SignReport { finalized: false, keys_applied: 2 })));
    assert_eq!(sign_round(2, &vec![Some(true), None]), (SignState::SigningFailed, Err(Error::SigningFailed)));
}

#[test]
fn sign_skips_unsupported_purposes() {
    let root = abandon_root();
    let text = psbt_spending(&root, "m/0'/0'/0'/0/0").to_string();
    let mut psbt = Psbt::decode(&text, Network::Bitcoin).unwrap();
    assert_eq!(psbt.sign(&root).unwrap(), SignReport { finalized: false, keys_applied: 0 });
    assert_eq!(psbt.state(), SignState::PartiallySigned);
}

#[test]
fn state_transitions() {
    assert_eq!(next_state(SignState::Finalized, 0, None), SignState::Finalized);
    assert_eq!(next_state(SignState::Loaded, 0, Some(true)), SignState::PartiallySigned);
    assert_eq!(next_state(SignState::Loaded, 2, Some(true)), SignState::Finalized);
    assert_eq!(next_state(SignState::PartiallySigned, 1, Some(false)), SignState::PartiallySigned);
    assert_eq!(next_state(SignState::Loaded, 1, None), SignState::SigningFailed);
}

#[test]
fn saving_rules() {
    assert_eq!(save_action(SignState::Finalized), SaveAction::CreateSigned);
    assert_eq!(save_action(SignState::PartiallySigned), SaveAction::OverwriteInPlace);
    assert_eq!(save_action(SignState::Loaded), SaveAction::OverwriteInPlace);
    assert_eq!(signed_file_name("payment"), "payment-signed.psbt");
}

#[test]
fn signer_error_is_signing_failed() {
    let root = abandon_root();
    let mut raw = psbt_spending(&root, "m/84'/0'/0'/0/0");
    raw.inputs[0].witness_utxo = None;
    raw.inputs[0].non_witness_utxo = None;
    let mut psbt = Psbt::decode(&raw.to_string(), Network::Bitcoin).unwrap();
    assert_eq!(psbt.sign(&root).err(), Some(Error::SigningFailed));
    assert_eq!(psbt.state(), SignState::SigningFailed);
}

#[test]
fn signing_paths_keep_our_distinct_supported_paths() {
    use_paths();
}

fn h(index: u32) -> keechain::descriptor::ChildNumber {
    keechain::descriptor::ChildNumber { index, hardened: true }
}

fn n(index: u32) -> keechain::descriptor::ChildNumber {
    keechain::descriptor::ChildNumber { index, hardened: false }
}

fn use_paths() {
    let ours = [0x73, 0xc5, 0xda, 0x0a];
    let a = vec![h(84), h(0), h(0), n(0), n(1)];
    let b = vec![h(44), h(0), h(0), n(1), n(0)];
    let origins = vec![
        KeyOrigin { fingerprint: ours, path: a.clone() },
        KeyOrigin { fingerprint: [1, 2, 3, 4], path: b.clone() },
        KeyOrigin { fingerprint: ours, path: vec![h(0), h(0), h(0)] },
        KeyOrigin { fingerprint: ours, path: b.clone() },
        KeyOrigin { fingerprint: ours, path: a.clone() },
    ];
    let paths = signing_paths(&origins, &ours);
    assert_eq!(paths, vec![a, b]);
    let root = abandon_root();
    let descriptors = signing_descriptors(&root, &paths);
    assert_eq!(descriptors[0], format!("wpkh({}/84h/0h/0h/0/1)", root.as_str()));
    assert_eq!(descriptors[1], format!("pkh({}/44h/0h/0h/1/0)", root.as_str()));
}
