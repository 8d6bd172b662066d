//! The choices of the command line and their conversions to library types.

use vstd::prelude::*;

use crate::types::{ElectrumSupportedScripts, Network, WordCount};

verus! {

/// Network choices of the command line.
#[derive(Debug, Clone, Copy, PartialEq, Eq, Structural)]
pub enum CliNetwork {
    Bitcoin,
    Testnet,
    Signet,
    Regtest,
}

impl From<CliNetwork> for Network {
    fn from(value: CliNetwork) -> (r: Network) {
        match value {
            CliNetwork::Bitcoin => Network::Bitcoin,
            CliNetwork::Testnet => Network::Testnet,
            CliNetwork::Signet => Network::Signet,
            CliNetwork::Regtest => Network::Regtest,
        }
    }
}

impl vstd::std_specs::convert::FromSpecImpl<CliNetwork> for Network {
    open spec fn obeys_from_spec() -> bool {
        true
    }

    open spec fn from_spec(value: CliNetwork) -> Network {
        match value {
            CliNetwork::Bitcoin => Network::Bitcoin,
            CliNetwork::Testnet => Network::Testnet,
            CliNetwork::Signet => Network::Signet,
            CliNetwork::Regtest => Network::Regtest,
        }
    }
}

/// Electrum script choices of the command line.
#[derive(Debug, Clone, Copy, PartialEq, Eq, Structural)]
pub enum CliElectrumSupportedScripts {
    Legacy,
    Segwit,
    NativeSegwit,
}

impl From<CliElectrumSupportedScripts> for ElectrumSupportedScripts {
    fn from(value: CliElectrumSupportedScripts) -> (r: ElectrumSupportedScripts) {
        match value {
            CliElectrumSupportedScripts::Legacy => ElectrumSupportedScripts::Legacy,
            CliElectrumSupportedScripts::Segwit => ElectrumSupportedScripts::Segwit,
            CliElectrumSupportedScripts::NativeSegwit => ElectrumSupportedScripts::NativeSegwit,
        }
    }
}

impl vstd::std_specs::convert::FromSpecImpl<CliElectrumSupportedScripts> for ElectrumSupportedScripts {
    open spec fn obeys_from_spec() -> bool {
        true
    }

    open spec fn from_spec(value: CliElectrumSupportedScripts) -> ElectrumSupportedScripts {
        match value {
            CliElectrumSupportedScripts::Legacy => ElectrumSupportedScripts::Legacy,
            CliElectrumSupportedScripts::Segwit => ElectrumSupportedScripts::Segwit,
            CliElectrumSupportedScripts::NativeSegwit => ElectrumSupportedScripts::NativeSegwit,
        }
    }
}

/// Word-count choices of the command line: 12, 18 or 24.
#[derive(Debug, Clone, Copy, PartialEq, Eq, Structural)]
pub enum CliWordCount {
    W12,
    W18,
    W24,
}

impl From<CliWordCount> for WordCount {
    fn from(value: CliWordCount) -> (r: WordCount) {
        match value {
            CliWordCount::W12 => WordCount::W12,
            CliWordCount::W18 => WordCount::W18,
            CliWordCount::W24 => WordCount::W24,
        }
    }
}

impl vstd::std_specs::convert::FromSpecImpl<CliWordCount> for WordCount {
    open spec fn obeys_from_spec() -> bool {
        true
    }

    open spec fn from_spec(value: CliWordCount) -> WordCount {
        match value {
            CliWordCount::W12 => WordCount::W12,
            CliWordCount::W18 => WordCount::W18,
            CliWordCount::W24 => WordCount::W24,
        }
    }
}

} // verus!
