use keechain::descriptor::{build, ChildNumber, DerivationPath, ScriptType};
use keechain::error::Error;

fn path(steps: &[(u32, bool)]) -> DerivationPath {
    DerivationPath {
        children: steps.iter().map(|&(index, hardened)| ChildNumber { index, hardened }).collect(),
    }
}

const FP: [u8; 4] = [0x12, 0x34, 0xab, 0xcd];

#[test]
fn purpose_44_gives_pkh() {
    let d = build(&FP, "xpubK", &path(&[(44, true), (0, true), (0, true)]), false).unwrap();
    assert_eq!(d.script_type, ScriptType::Legacy);
    assert_eq!(d.text, "pkh([1234abcd/44h/0h/0h]xpubK/0/*)");
}

#[test]
fn purpose_49_gives_sh_wpkh() {
    let d = build(&FP, "xpubK", &path(&[(49, true), (1, true), (2, true)]), true).unwrap();
    assert_eq!(d.script_type, ScriptType::NestedSegwit);
    assert_eq!(d.text, "sh(wpkh([1234abcd/49h/1h/2h]xpubK/1/*))");
}

#[test]
fn purpose_84_gives_wpkh() {
    let d = build(&FP, "xpubK", &path(&[(84, true), (0, true), (0, true)]), false).unwrap();
    assert_eq!(d.script_type, ScriptType::NativeSegwit);
    assert_eq!(d.text, "wpkh([1234abcd/84h/0h/0h]xpubK/0/*)");
}

#[test]
fn purpose_86_gives_tr() {
    let d = build(&FP, "xpubK", &path(&[(86, true), (0, true), (7, true)]), true).unwrap();
    assert_eq!(d.script_type, ScriptType::Taproot);
    assert_eq!(d.text, "tr([1234abcd/86h/0h/7h]xpubK/1/*)");
}

#[test]
fn purpose_0_is_unsupported() {
    let r = build(&FP, "xpubK", &path(&[(0, true), (0, true), (0, true)]), false);
    assert_eq!(r.unwrap_err(), Error::UnsupportedDerivationPath);
}

#[test]
fn unhardened_purpose_is_unsupported() {
    let r = build(&FP, "xpubK", &path(&[(84, false), (0, true)]), false);
    assert_eq!(r.unwrap_err(), Error::UnsupportedDerivationPath);
}

#[test]
fn empty_path_is_unsupported() {
    let r = build(&FP, "xpubK", &path(&[]), false);
    assert_eq!(r.unwrap_err(), Error::UnsupportedDerivationPath);
}

#[test]
fn bad_coin_is_invalid() {
    let r = build(&FP, "xpubK", &path(&[(84, true), (2, true), (0, true)]), false);
    assert_eq!(r.unwrap_err(), Error::InvalidDerivationPath);
    let r = build(&FP, "xpubK", &path(&[(84, true)]), false);
    assert_eq!(r.unwrap_err(), Error::InvalidDerivationPath);
    let r = build(&FP, "xpubK", &path(&[(84, true), (0, false)]), false);
    assert_eq!(r.unwrap_err(), Error::InvalidDerivationPath);
}

#[test]
fn account_defaults_to_zero_hardened() {
    let d = build(&[0, 0, 0, 0xff], "K", &path(&[(84, true), (1, true)]), false).unwrap();
    assert_eq!(d.text, "wpkh([000000ff/84h/1h/0h]K/0/*)");
}

#[test]
fn large_and_normal_account_steps_are_written_in_decimal() {
    let d = build(&FP, "K", &path(&[(44, true), (0, true), (2147483647, false)]), false).unwrap();
    assert_eq!(d.text, "pkh([1234abcd/44h/0h/2147483647]K/0/*)");
}
