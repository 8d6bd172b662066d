use keechain::derivation::{account_descriptor, bip85_child_mnemonic, bip85_entropy, root_key, RootKey};
use keechain::descriptor::{ChildNumber, DerivationPath};
use keechain::error::Error;
use keechain::keychain::Keychain;
use keechain::seed::{Mnemonic, Seed};
use keechain::types::{ElectrumSupportedScripts, Network, WordCount};

const ABANDON: &str = "abandon abandon abandon abandon abandon abandon abandon abandon abandon abandon abandon about";
const BIP85_ROOT: &str = "xprv9s21ZrQH143K2LBWUUQRFXhucrQqBpKdRRxNVq2zBqsx8HVqFk2uYo8kmbaLLHRdqtQpUm98uKfu3vca1LqdGhUtyoFnCNkfmXRyPXLjbKb";

fn abandon_seed(passphrase: Option<&str>) -> Seed {
    Seed::new(Mnemonic::parse(ABANDON).unwrap(), passphrase.map(String::from)).unwrap()
}

fn hardened(steps: &[u32]) -> DerivationPath {
    DerivationPath { children: steps.iter().map(|&index| ChildNumber { index, hardened: true }).collect() }
}

#[test]
fn root_key_of_the_abandon_phrase() {
    let root = root_key(&abandon_seed(None), Network::Bitcoin).unwrap();
    assert_eq!(
        root.as_str(),
        "xprv9s21ZrQH143K3GJpoapnV8SFfukcVBSfeCficPSGfubmSFDxo1kuHnLisriDvSnRRuL2Qrg5ggqHKNVpxR86QEC8w35uxmGoggxtQTPvfUu"
    );
    assert_eq!(root.fingerprint(), [0x73, 0xc5, 0xda, 0x0a]);
}

#[test]
fn root_key_is_deterministic_and_depends_on_everything() {
    let a = root_key(&abandon_seed(None), Network::Bitcoin).unwrap();
    let b = root_key(&abandon_seed(None), Network::Bitcoin).unwrap();
    assert_eq!(a, b);
    let c = root_key(&abandon_seed(Some("TREZOR")), Network::Bitcoin).unwrap();
    assert_ne!(a, c);
    let d = root_key(&abandon_seed(None), Network::Testnet).unwrap();
    assert_ne!(a, d);
    assert!(d.as_str().starts_with("tprv"));
}

#[test]
fn active_passphrase_changes_the_root() {
    let mut k = Keychain::new("alice".to_string(), abandon_seed(None));
    let plain = k.root_key(Network::Bitcoin).unwrap();
    k.apply_passphrase(Some("TREZOR".to_string()));
    let with = k.root_key(Network::Bitcoin).unwrap();
    assert_eq!(with, root_key(&abandon_seed(Some("TREZOR")), Network::Bitcoin).unwrap());
    assert_ne!(plain, with);
    k.apply_passphrase(None);
    assert_eq!(k.root_key(Network::Bitcoin).unwrap(), plain);
}

#[test]
fn account_descriptor_of_the_abandon_phrase() {
    let root = root_key(&abandon_seed(None), Network::Bitcoin).unwrap();
    let d = account_descriptor(&root, &hardened(&[84, 0, 0]), false).unwrap();
    assert_eq!(
        d.text,
        "wpkh([73c5da0a/84h/0h/0h]xpub6CatWdiZiodmUeTDp8LT5or8nmbKNcuyvz7WyksVFkKB4RHwCD3XyuvPEbvqAQY3rAPshWcMLoP2fMFMKHPJ4ZeZXYVUhLv1VMrjPC7PW6V/0/*)"
    );
    let change = account_descriptor(&root, &hardened(&[84, 0]), true).unwrap();
    assert!(change.text.ends_with("/1/*)"));
    assert_eq!(account_descriptor(&root, &hardened(&[0, 0, 0]), false).unwrap_err(), Error::UnsupportedDerivationPath);
}

#[test]
fn bip85_vectors() {
    let root = RootKey::parse(BIP85_ROOT).unwrap();
    let m12 = bip85_child_mnemonic(&root, WordCount::W12, 0).unwrap();
    assert_eq!(m12.as_str(), "girl mad pet galaxy egg matter matrix prison refuse sense ordinary nose");
    let m18 = bip85_child_mnemonic(&root, WordCount::W18, 0).unwrap();
    assert_eq!(m18.as_str(), "near account window bike charge season chef number sketch tomorrow excuse sniff circle vital hockey outdoor supply token");
    let m24 = bip85_child_mnemonic(&root, WordCount::W24, 0).unwrap();
    assert_eq!(
        m24.as_str(),
        "puppy ocean match cereal symbol another shed magic wrap hammer bulb intact gadget divorce twin tonight reason outdoor destroy simple truth cigar social volcano"
    );
}

#[test]
fn bip85_is_deterministic_per_index() {
    let root = root_key(&abandon_seed(None), Network::Bitcoin).unwrap();
    let a = bip85_child_mnemonic(&root, WordCount::W24, 3).unwrap();
    let b = bip85_child_mnemonic(&root, WordCount::W24, 3).unwrap();
    let c = bip85_child_mnemonic(&root, WordCount::W24, 4).unwrap();
    assert_eq!(a, b);
    assert_ne!(a, c);
}

#[test]
fn bip85_rejects_a_hardened_index() {
    let root = RootKey::parse(BIP85_ROOT).unwrap();
    assert_eq!(bip85_child_mnemonic(&root, WordCount::W12, 0x8000_0000).unwrap_err(), Error::InvalidIndex);
}

#[test]
fn bip85_entropy_truncates_the_digest() {
    let a = bip85_entropy(&[1u8; 32], WordCount::W12);
    let b = bip85_entropy(&[1u8; 32], WordCount::W24);
    assert_eq!(a.len(), 16);
    assert_eq!(b.len(), 32);
    assert_eq!(&b[..16], &a[..]);
}

#[test]
fn root_key_parse_rejects_garbage() {
    assert_eq!(RootKey::parse("xprv-nonsense").unwrap_err(), Error::ParseError);
}

#[test]
fn export_lists_every_family_receive_then_change() {
    let root = root_key(&abandon_seed(None), Network::Bitcoin).unwrap();
    let all = keechain::export::export_descriptors(&root, Network::Bitcoin, 0);
    assert_eq!(all.len(), 8);
    let prefixes = ["pkh([73c5da0a/44h/0h/0h]", "sh(wpkh([73c5da0a/49h/0h/0h]", "wpkh([73c5da0a/84h/0h/0h]", "tr([73c5da0a/86h/0h/0h]"];
    for (k, d) in all.iter().enumerate() {
        assert!(d.text.starts_with(prefixes[k / 2]));
        assert!(d.text.contains(if k % 2 == 0 { "/0/*" } else { "/1/*" }));
    }
    assert_eq!(
        all[4].text,
        "wpkh([73c5da0a/84h/0h/0h]xpub6CatWdiZiodmUeTDp8LT5or8nmbKNcuyvz7WyksVFkKB4RHwCD3XyuvPEbvqAQY3rAPshWcMLoP2fMFMKHPJ4ZeZXYVUhLv1VMrjPC7PW6V/0/*)"
    );
    let test_root = root_key(&abandon_seed(None), Network::Testnet).unwrap();
    let test = keechain::export::export_descriptors(&test_root, Network::Testnet, 1);
    assert!(test[2].text.starts_with("sh(wpkh([73c5da0a/49h/1h/1h]tpub"));
}

#[test]
fn checksummed_descriptor_and_node_document() {
    let root = root_key(&abandon_seed(None), Network::Bitcoin).unwrap();
    let all = keechain::export::export_descriptors(&root, Network::Bitcoin, 0);
    let with = all[4].to_checksummed().unwrap();
    let (body, sum) = with.split_once('#').unwrap();
    assert_eq!(body, all[4].text);
    assert_eq!(sum.len(), 8);
    let doc = keechain::export::node_wallet_document(&all[4], &all[5]).unwrap();
    let change = all[5].to_checksummed().unwrap();
    assert_eq!(
        doc,
        format!(
            "[{{\"desc\":\"{}\",\"timestamp\":\"now\",\"active\":true,\"internal\":false}},{{\"desc\":\"{}\",\"timestamp\":\"now\",\"active\":true,\"internal\":true}}]",
            with, change
        )
    );
}

#[test]
fn checksum_rejects_a_malformed_descriptor() {
    let bad = keechain::descriptor::Descriptor {
        script_type: keechain::descriptor::ScriptType::NativeSegwit,
        text: "wpkh(".to_string(),
    };
    assert_eq!(bad.to_checksummed().unwrap_err(), Error::ParseError);
}

#[test]
fn export_file_names() {
    use_names();
}

fn use_names() {
    assert_eq!(keechain::export::export_file_name("alice", Network::Bitcoin, keechain::descriptor::ScriptType::NativeSegwit), "alice-bitcoin-native-segwit.json");
    assert_eq!(keechain::export::export_file_name("b", Network::Regtest, keechain::descriptor::ScriptType::Taproot), "b-regtest-taproot.json");
}

#[test]
fn electrum_native_segwit_of_the_abandon_phrase() {
    let root = root_key(&abandon_seed(None), Network::Bitcoin).unwrap();
    let doc = keechain::export::electrum_export(&root, Network::Bitcoin, ElectrumSupportedScripts::NativeSegwit, 0);
    assert_eq!(
        doc,
        "{\"keystore\":{\"derivation\":\"m/84h/0h/0h\",\"root_fingerprint\":\"73c5da0a\",\"type\":\"bip32\",\"xprv\":null,\"xpub\":\"zpub6rFR7y4Q2AijBEqTUquhVz398htDFrtymD9xYYfG1m4wAcvPhXNfE3EfH1r1ADqtfSdVCToUG868RvUUkgDKf31mGDtKsAYz2oz2AGutZYs\"},\"wallet_type\":\"standard\"}"
    );
    let legacy = keechain::export::electrum_export(&root, Network::Bitcoin, ElectrumSupportedScripts::Legacy, 0);
    assert!(legacy.contains("\"xpub\":\"xpub") && legacy.contains("m/44h/0h/0h"));
    let test_root = root_key(&abandon_seed(None), Network::Testnet).unwrap();
    let nested = keechain::export::electrum_export(&test_root, Network::Testnet, ElectrumSupportedScripts::Segwit, 2);
    assert!(nested.contains("\"xpub\":\"upub") && nested.contains("m/49h/1h/2h"));
}

#[test]
fn root_key_parse_accepts_only_master_keys() {
    let root = root_key(&abandon_seed(None), Network::Bitcoin).unwrap();
    let account = root.derive_xpub(&hardened(&[84, 0, 0]));
    assert!(account.starts_with("xpub"));
    assert!(RootKey::parse(root.as_str()).is_ok());
    // An account-level xprv (depth 3) is not a master key.
    let secp = bitcoin::secp256k1::Secp256k1::new();
    let master: bitcoin::util::bip32::ExtendedPrivKey = root.as_str().parse().unwrap();
    let path: bitcoin::util::bip32::DerivationPath = "m/84'/0'/0'".parse().unwrap();
    let child = master.derive_priv(&secp, &path).unwrap();
    assert_eq!(RootKey::parse(&child.to_string()).unwrap_err(), Error::ParseError);
}

#[test]
fn bip85_word_counts() {
    let root = RootKey::parse(BIP85_ROOT).unwrap();
    assert_eq!(bip85_child_mnemonic(&root, WordCount::W12, 7).unwrap().word_count(), 12);
    assert_eq!(bip85_child_mnemonic(&root, WordCount::W18, 7).unwrap().word_count(), 18);
    assert_eq!(bip85_child_mnemonic(&root, WordCount::W24, 7).unwrap().word_count(), 24);
}
