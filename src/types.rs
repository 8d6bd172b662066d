//! Networks, word counts and script families.

use vstd::prelude::*;

verus! {

/// The Bitcoin network a key or a transaction belongs to.
#[derive(Debug, Clone, Copy, PartialEq, Eq, Structural)]
pub enum Network {
    Bitcoin,
    Testnet,
    Signet,
    Regtest,
}

/// Number of words of a BIP39 mnemonic that this library creates.
#[derive(Debug, Clone, Copy, PartialEq, Eq, Structural)]
pub enum WordCount {
    W12,
    W18,
    W24,
}

impl WordCount {
    pub open spec fn spec_words(self) -> nat {
        match self {
            WordCount::W12 => 12,
            WordCount::W18 => 18,
            WordCount::W24 => 24,
        }
    }

    /// Bytes of entropy behind a mnemonic of this many words: `words * 4 / 3`.
    pub open spec fn spec_entropy_len(self) -> nat {
        self.spec_words() * 4 / 3
    }

    pub fn as_u32(&self) -> (r: u32)
        ensures
            r as nat == self.spec_words(),
    {
        match self {
            WordCount::W12 => 12,
            WordCount::W18 => 18,
            WordCount::W24 => 24,
        }
    }

    pub fn entropy_len(&self) -> (r: usize)
        ensures
            r as nat == self.spec_entropy_len(),
            r == 16 || r == 24 || r == 32,
    {
        let words: u32 = self.as_u32();
        (words * 4 / 3) as usize
    }
}

/// Script families of the Electrum wallet export.
#[derive(Debug, Clone, Copy, PartialEq, Eq, Structural)]
pub enum ElectrumSupportedScripts {
    Legacy,
    Segwit,
    NativeSegwit,
}

impl ElectrumSupportedScripts {
    /// BIP purpose number of the family: 44, 49 or 84.
    pub open spec fn spec_purpose(self) -> u32 {
        match self {
            ElectrumSupportedScripts::Legacy => 44,
            ElectrumSupportedScripts::Segwit => 49,
            ElectrumSupportedScripts::NativeSegwit => 84,
        }
    }

    pub fn purpose(&self) -> (r: u32)
        ensures
            r == self.spec_purpose(),
    {
        match self {
            ElectrumSupportedScripts::Legacy => 44,
            ElectrumSupportedScripts::Segwit => 49,
            ElectrumSupportedScripts::NativeSegwit => 84,
        }
    }
}

} // verus!
