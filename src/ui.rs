//! State of the screens of a user interface built on the library.

use vstd::prelude::*;

use crate::keychain::Keychain;
use crate::psbt::Psbt;
use crate::types::Network;

verus! {

/// Screens of an open keychain.
#[derive(Debug, Clone, Copy, PartialEq, Eq, Structural)]
pub enum Stage {
    Home,
    Setting,
}

impl Default for Stage {
    fn default() -> (r: Stage)
        ensures
            r == Stage::Home,
    {
        Stage::Home
    }
}

/// What an open session carries between screens.
pub struct Context {
    pub stage: Stage,
    pub network: Network,
    pub keechain: Keychain,
}

impl Context {
    pub fn new(stage: Stage, network: Network, keechain: Keychain) -> (r: Context)
        ensures
            r.stage == stage,
            r.network == network,
            r.keechain == keechain,
    {
        Context { stage, network, keechain }
    }

    pub fn set_stage(&mut self, stage: Stage)
        ensures
            final(self).stage == stage,
            final(self).network == old(self).network,
            final(self).keechain == old(self).keechain,
    {
        self.stage = stage;
    }
}

/// Events of the signing screen.
#[derive(Debug, Clone, Copy, PartialEq, Eq, Structural)]
pub enum SignMessage {
    SelectPsbtFile,
    Sign,
    Clear,
    ExportWithQrCode,
    SaveToFile,
}

/// Events of an open session.
#[derive(Debug, Clone, Copy, PartialEq, Eq, Structural)]
pub enum Message {
    View(Stage),
    Lock,
    Sign(SignMessage),
}

/// Events of the open screen.
#[derive(Debug, Clone, PartialEq, Eq)]
pub enum OpenMessage {
    LoadKeychains,
    KeychainSelect(String),
    PasswordChanged(String),
    OpenButtonPressed,
}

/// Fields of the open screen.
#[derive(Debug, Clone, PartialEq, Eq)]
pub struct OpenState {
    pub keychains: Vec<String>,
    pub name: Option<String>,
    pub password: String,
    pub error: Option<String>,
}

impl OpenState {
    pub fn new() -> (r: OpenState)
        ensures
            r.keychains@.len() == 0,
            r.name is None,
            r.password@.len() == 0,
            r.error is None,
    {
        OpenState { keychains: Vec::new(), name: None, password: String::new(), error: None }
    }
}

/// Events of the restore screen.
#[derive(Debug, Clone, PartialEq, Eq)]
pub enum RestoreMessage {
    NameChanged(String),
    PasswordChanged(String),
    ConfirmPasswordChanged(String),
    MnemonicChanged(String),
    RestoreButtonPressed,
}

/// Fields of the restore screen.
#[derive(Debug, Clone, PartialEq, Eq)]
pub struct RestoreState {
    pub name: String,
    pub password: String,
    pub confirm_password: String,
    pub mnemonic: String,
    pub error: Option<String>,
}

impl RestoreState {
    pub fn new() -> (r: RestoreState)
        ensures
            r.name@.len() == 0,
            r.password@.len() == 0,
            r.confirm_password@.len() == 0,
            r.mnemonic@.len() == 0,
            r.error is None,
    {
        RestoreState {
            name: String::new(),
            password: String::new(),
            confirm_password: String::new(),
            mnemonic: String::new(),
            error: None,
        }
    }
}

/// Fields of the change-password screen.
#[derive(Debug, Clone, PartialEq, Eq)]
pub struct ChangePasswordState {
    pub new_password: String,
    pub confirm_new_password: String,
    pub error: Option<String>,
}

impl ChangePasswordState {
    pub fn new() -> (r: ChangePasswordState)
        ensures
            r.new_password@.len() == 0,
            r.confirm_new_password@.len() == 0,
            r.error is None,
    {
        ChangePasswordState { new_password: String::new(), confirm_new_password: String::new(), error: None }
    }

    /// Forgets what was typed.
    pub fn clear(&mut self)
        ensures
            final(self).new_password@.len() == 0,
            final(self).confirm_new_password@.len() == 0,
            final(self).error is None,
    {
        self.new_password = String::new();
        self.confirm_new_password = String::new();
        self.error = None;
    }
}

/// Fields of the passphrase screen.
#[derive(Debug, Clone, PartialEq, Eq)]
pub struct PassphraseState {
    pub passphrase: String,
    pub password: String,
    pub save: bool,
    pub show_saved: bool,
    pub error: Option<String>,
}

impl PassphraseState {
    pub fn new() -> (r: PassphraseState)
        ensures
            r.passphrase@.len() == 0,
            r.password@.len() == 0,
            !r.save,
            !r.show_saved,
            r.error is None,
    {
        PassphraseState {
            passphrase: String::new(),
            password: String::new(),
            save: false,
            show_saved: false,
            error: None,
        }
    }

    /// Forgets what was typed and chosen.
    pub fn clear(&mut self)
        ensures
            final(self).passphrase@.len() == 0,
            final(self).password@.len() == 0,
            !final(self).save,
            !final(self).show_saved,
            final(self).error is None,
    {
        self.passphrase = String::new();
        self.password = String::new();
        self.save = false;
        self.show_saved = false;
        self.error = None;
    }
}

/// A PSBT being signed and the file it came from.
pub struct PsbtFile {
    pub psbt: Psbt,
    pub path: String,
}

/// Fields of the signing screen.
pub struct SignLayoutData {
    pub psbt_file: Option<PsbtFile>,
    pub error: Option<String>,
    pub finish: bool,
}

impl SignLayoutData {
    pub fn new() -> (r: SignLayoutData)
        ensures
            r.psbt_file is None,
            r.error is None,
            !r.finish,
    {
        SignLayoutData { psbt_file: None, error: None, finish: false }
    }

    /// Drops the loaded PSBT and the outcome.
    pub fn clear(&mut self)
        ensures
            final(self).psbt_file is None,
            final(self).error is None,
            !final(self).finish,
    {
        self.psbt_file = None;
        self.error = None;
        self.finish = false;
    }
}

/// The side navigation of an open session.
#[derive(Debug, Clone, Copy, PartialEq, Eq, Structural)]
pub struct Sidebar;

impl Sidebar {
    pub fn new() -> (r: Sidebar)
        ensures
            r == Sidebar,
    {
        Sidebar
    }
}

/// The top bar of an open session.
#[derive(Debug, Clone, Copy, PartialEq, Eq, Structural)]
pub struct Navbar;

} // verus!
