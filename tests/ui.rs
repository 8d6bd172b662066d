use keechain::cli::{CliElectrumSupportedScripts, CliNetwork, CliWordCount};
use keechain::keychain::Keychain;
use keechain::seed::{Mnemonic, Seed};
use keechain::types::{ElectrumSupportedScripts, Network, WordCount};
use keechain::ui::{
    ChangePasswordState, Context, Message, OpenState, PassphraseState, RestoreState, SignLayoutData, SignMessage,
    Sidebar, Stage,
};

#[test]
fn cli_choices_convert() {
    assert_eq!(Network::from(CliNetwork::Bitcoin), Network::Bitcoin);
    assert_eq!(Network::from(CliNetwork::Testnet), Network::Testnet);
    assert_eq!(Network::from(CliNetwork::Signet), Network::Signet);
    assert_eq!(Network::from(CliNetwork::Regtest), Network::Regtest);
    assert_eq!(WordCount::from(CliWordCount::W12).as_u32(), 12);
    assert_eq!(WordCount::from(CliWordCount::W18).as_u32(), 18);
    assert_eq!(WordCount::from(CliWordCount::W24).as_u32(), 24);
    assert_eq!(ElectrumSupportedScripts::from(CliElectrumSupportedScripts::Legacy).purpose(), 44);
    assert_eq!(ElectrumSupportedScripts::from(CliElectrumSupportedScripts::Segwit).purpose(), 49);
    assert_eq!(ElectrumSupportedScripts::from(CliElectrumSupportedScripts::NativeSegwit).purpose(), 84);
}

#[test]
fn entropy_lengths_of_word_counts() {
    assert_eq!(WordCount::W12.entropy_len(), 16);
    assert_eq!(WordCount::W18.entropy_len(), 24);
    assert_eq!(WordCount::W24.entropy_len(), 32);
}

#[test]
fn context_stage() {
    let seed = Seed::new(Mnemonic::from_entropy(&[0u8; 16]).unwrap(), None).unwrap();
    let mut ctx = Context::new(Stage::default(), Network::Signet, Keychain::new("k".to_string(), seed));
    assert_eq!(ctx.stage, Stage::Home);
    ctx.set_stage(Stage::Setting);
    assert_eq!(ctx.stage, Stage::Setting);
    assert_eq!(ctx.network, Network::Signet);
    assert_eq!(ctx.keechain.name, "k");
}

#[test]
fn screens_clear() {
    let mut c = ChangePasswordState::new();
    c.new_password = "a".to_string();
    c.error = Some("e".to_string());
    c.clear();
    assert_eq!(c, ChangePasswordState::new());
    let mut p = PassphraseState::new();
    p.save = true;
    p.passphrase = "x".to_string();
    p.clear();
    assert_eq!(p, PassphraseState::new());
    let mut s = SignLayoutData::new();
    s.finish = true;
    s.error = Some("e".to_string());
    s.clear();
    assert!(!s.finish && s.error.is_none() && s.psbt_file.is_none());
    assert!(OpenState::new().keychains.is_empty());
    assert!(RestoreState::new().mnemonic.is_empty());
    assert_eq!(Sidebar::new(), Sidebar);
    assert_eq!(Message::Sign(SignMessage::Clear), Message::Sign(SignMessage::Clear));
    assert_ne!(Message::View(Stage::Home), Message::Lock);
}
