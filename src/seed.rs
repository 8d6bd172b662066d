//! BIP39 mnemonics, seeds and their byte layout.

use vstd::prelude::*;
use vstd::utf8::*;

use bdk::keys::bip39;

use crate::bytes::{be32, copy_range, extend_bytes, from_be32, lemma_be32_round_trip, lemma_from_be32_round_trip};
use crate::error::Error;

verus! {

broadcast use {encode_utf8_valid_utf8, encode_utf8_decode_utf8, decode_utf8_encode_utf8};

/// Whether BIP39 accepts a phrase: English words and a correct checksum.
pub uninterp spec fn bip39_accepts(phrase: Seq<char>) -> bool;

/// The canonical text of an accepted phrase: its words joined by single spaces.
pub uninterp spec fn bip39_canonical(phrase: Seq<char>) -> Seq<char>;

/// The English phrase that BIP39 assigns to a block of entropy.
pub uninterp spec fn bip39_phrase_of(entropy: Seq<u8>) -> Seq<char>;

/// Number of space bytes in some UTF-8.
pub open spec fn spaces(b: Seq<u8>) -> nat
    decreases b.len(),
{
    if b.len() == 0 {
        0
    } else {
        spaces(b.drop_last()) + if b.last() == 0x20u8 { 1nat } else { 0nat }
    }
}

/// Words of a phrase whose words are separated by single spaces.
pub open spec fn word_count_of(phrase: Seq<char>) -> nat {
    spaces(encode_utf8(phrase)) + 1
}

/// A phrase that BIP39 accepts and that is already in canonical form.
pub open spec fn valid_phrase(phrase: Seq<char>) -> bool {
    bip39_accepts(phrase) && bip39_canonical(phrase) == phrase
}

/// The longest canonical English phrase: 24 words of at most 8 ASCII letters
/// and 23 spaces is 215 bytes; this bound leaves room.
pub open spec fn phrase_bound() -> nat {
    300
}

/// Relies on `bip39::Mnemonic::parse` and its `Display`: the phrase is accepted
/// when its English words (12 to 24 of them) and checksum are valid, and is
/// then written back with single spaces, which parses again to the same text.
#[verifier::external_body]
fn bip39_parse(phrase: &str) -> (r: Option<String>)
    ensures
        r is Some <==> bip39_accepts(phrase@),
        r matches Some(p) ==> p@ == bip39_canonical(phrase@) && valid_phrase(p@) && encode_utf8(p@).len()
            <= phrase_bound(),
{
    bip39::Mnemonic::parse(phrase).ok().map(|m| m.to_string())
}

/// Relies on `bip39::Mnemonic::from_entropy` and its `Display`: entropy of 16,
/// 20, 24, 28 or 32 bytes gives a valid English phrase of `bytes * 3 / 4`
/// words joined by single spaces; other lengths fail.
#[verifier::external_body]
fn bip39_from_entropy(entropy: &[u8]) -> (r: Option<String>)
    ensures
        r is Some <==> valid_entropy_len(entropy@.len()),
        r matches Some(p) ==> p@ == bip39_phrase_of(entropy@) && valid_phrase(p@) && encode_utf8(p@).len()
            <= phrase_bound() && word_count_of(p@) == entropy@.len() * 3 / 4,
{
    bip39::Mnemonic::from_entropy(entropy).ok().map(|m| m.to_string())
}

pub open spec fn valid_entropy_len(n: nat) -> bool {
    n == 16 || n == 20 || n == 24 || n == 28 || n == 32
}

/// A BIP39 mnemonic that passed checksum validation, kept as its canonical phrase.
#[derive(Debug, PartialEq, Eq)]
pub struct Mnemonic {
    phrase: String,
}

impl View for Mnemonic {
    type V = Seq<char>;

    closed spec fn view(&self) -> Seq<char> {
        self.phrase@
    }
}

impl Mnemonic {
    #[verifier::type_invariant]
    spec fn inv(self) -> bool {
        valid_phrase(self.phrase@) && encode_utf8(self.phrase@).len() <= phrase_bound()
    }

    /// Parses and validates a phrase; `InvalidMnemonic` exactly when BIP39 rejects it.
    pub fn parse(phrase: &str) -> (r: Result<Mnemonic, Error>)
        ensures
            r is Ok <==> bip39_accepts(phrase@),
            r matches Ok(m) ==> m@ == bip39_canonical(phrase@) && valid_phrase(m@),
            r is Err ==> r == Err::<Mnemonic, Error>(Error::InvalidMnemonic),
    {
        match bip39_parse(phrase) {
            Some(p) => Ok(Mnemonic { phrase: p }),
            None => Err(Error::InvalidMnemonic),
        }
    }

    /// The mnemonic of a block of entropy of 16, 20, 24, 28 or 32 bytes;
    /// `InvalidEntropy` for any other length.
    pub fn from_entropy(entropy: &[u8]) -> (r: Result<Mnemonic, Error>)
        ensures
            r is Ok <==> valid_entropy_len(entropy@.len()),
            r matches Ok(m) ==> m@ == bip39_phrase_of(entropy@) && word_count_of(m@) == entropy@.len() * 3 / 4
                && valid_phrase(m@),
            r is Err ==> r == Err::<Mnemonic, Error>(Error::InvalidEntropy),
    {
        match bip39_from_entropy(entropy) {
            Some(p) => Ok(Mnemonic { phrase: p }),
            None => Err(Error::InvalidEntropy),
        }
    }

    /// Rebuilds a mnemonic from stored text, which must be canonical and accepted.
    fn from_stored(phrase: String) -> (r: Option<Mnemonic>)
        ensures
            r is Some <==> valid_phrase(phrase@),
            r matches Some(m) ==> m@ == phrase@,
    {
        match bip39_parse(phrase.as_str()) {
            Some(c) => {
                if c == phrase {
                    Some(Mnemonic { phrase })
                } else {
                    None
                }
            },
            None => None,
        }
    }

    pub fn as_str(&self) -> (r: &str)
        ensures
            r@ == self@,
            valid_phrase(self@),
            bip39_accepts(self@),
            encode_utf8(self@).len() <= phrase_bound(),
    {
        proof {
            use_type_invariant(self);
        }
        self.phrase.as_str()
    }

    /// Number of words of the phrase.
    pub fn word_count(&self) -> (r: usize)
        ensures
            r == word_count_of(self@),
    {
        let b: &[u8] = self.as_str().as_bytes();
        let mut n: usize = 0;
        let mut i: usize = 0;
        while i < b.len()
            invariant
                i <= b@.len() <= 300,
                n == spaces(b@.subrange(0, i as int)),
                n <= i,
            decreases b@.len() - i,
        {
            proof {
                assert(b@.subrange(0, i as int + 1).drop_last() =~= b@.subrange(0, i as int));
            }
            if b[i] == 0x20 {
                n += 1;
            }
            i += 1;
        }
        assert(b@.subrange(0, b@.len() as int) =~= b@);
        n + 1
    }
}

/// The plain values of a seed: its phrase and its optional passphrase.
pub type SeedView = (Seq<char>, Option<Seq<char>>);

/// Byte layout of a seed: 4-byte big-endian length of the phrase's UTF-8, the
/// phrase, then `0` alone, or `1` followed by the passphrase's UTF-8.
pub open spec fn serialize(v: SeedView) -> Seq<u8> {
    be32(encode_utf8(v.0).len() as u32) + encode_utf8(v.0) + match v.1 {
        None => seq![0u8],
        Some(p) => seq![1u8] + encode_utf8(p),
    }
}

/// A passphrase short enough for any mnemonic: at most `0xFFFF_0000` bytes of UTF-8.
pub open spec fn passphrase_fits(p: Option<Seq<char>>) -> bool {
    match p {
        None => true,
        Some(s) => encode_utf8(s).len() <= 0xFFFF_0000,
    }
}

/// A seed fits the layout when its serialization is at most `u32::MAX` bytes.
pub open spec fn fits(v: SeedView) -> bool {
    4 + encode_utf8(v.0).len() + 1 + match v.1 {
        None => 0,
        Some(p) => encode_utf8(p).len(),
    } <= 0xFFFF_FFFF
}

/// A mnemonic with an optional passphrase: what a keychain holds.
#[derive(Debug, PartialEq, Eq)]
pub struct Seed {
    mnemonic: Mnemonic,
    passphrase: Option<String>,
}

impl View for Seed {
    type V = SeedView;

    closed spec fn view(&self) -> SeedView {
        (self.mnemonic@, match self.passphrase {
            None => None,
            Some(p) => Some(p@),
        })
    }
}

pub open spec fn opt_view(p: Option<String>) -> Option<Seq<char>> {
    match p {
        None => None,
        Some(s) => Some(s@),
    }
}

impl Seed {
    #[verifier::type_invariant]
    spec fn inv(self) -> bool {
        fits(self@)
    }

    /// A seed of a mnemonic and an optional passphrase; `InvalidPassphrase` when
    /// the two together do not fit the stored layout.
    pub fn new(mnemonic: Mnemonic, passphrase: Option<String>) -> (r: Result<Seed, Error>)
        ensures
            r is Ok <==> fits((mnemonic@, opt_view(passphrase))),
            passphrase_fits(opt_view(passphrase)) ==> r is Ok,
            r matches Ok(s) ==> s@ == (mnemonic@, opt_view(passphrase)),
            r is Err ==> r == Err::<Seed, Error>(Error::InvalidPassphrase),
    {
        let n: usize = mnemonic.as_str().as_bytes().len();
        assert(n == encode_utf8(mnemonic@).len());
        let m: usize = match &passphrase {
            None => 0,
            Some(p) => {
                let k = p.as_str().as_bytes().len();
                assert(k == encode_utf8(p@).len());
                k
            },
        };
        if n > 0xFFFF_FFFF - 5 || m > 0xFFFF_FFFF - 5 - n {
            return Err(Error::InvalidPassphrase);
        }
        let ghost v = (mnemonic@, opt_view(passphrase));
        assert(fits(v));
        let seed = Seed { mnemonic, passphrase };
        assert(seed@ == v);
        Ok(seed)
    }

    pub fn mnemonic(&self) -> (r: &Mnemonic)
        ensures
            r@ == self@.0,
    {
        &self.mnemonic
    }

    pub fn passphrase(&self) -> (r: Option<&str>)
        ensures
            match self@.1 {
                None => r is None,
                Some(p) => r matches Some(q) && q@ == p,
            },
    {
        match &self.passphrase {
            None => None,
            Some(p) => Some(p.as_str()),
        }
    }

    /// The seed bytes of `serialize`.
    pub fn to_bytes(&self) -> (r: Vec<u8>)
        ensures
            r@ == serialize(self@),
            valid_phrase(self@.0),
            fits(self@),
    {
        proof {
            use_type_invariant(self);
            use_type_invariant(&self.mnemonic);
        }
        let phrase: &[u8] = self.mnemonic.as_str().as_bytes();
        let n: u32 = phrase.len() as u32;
        let mut out: Vec<u8> = Vec::new();
        out.push((n >> 24u32) as u8);
        out.push((n >> 16u32) as u8);
        out.push((n >> 8u32) as u8);
        out.push(n as u8);
        assert(out@ =~= be32(n));
        extend_bytes(&mut out, phrase);
        match &self.passphrase {
            None => {
                out.push(0u8);
            },
            Some(p) => {
                out.push(1u8);
                extend_bytes(&mut out, p.as_str().as_bytes());
            },
        }
        assert(out@ =~= serialize(self@));
        out
    }

    /// Reads the layout of `serialize` back; `None` on any other bytes.
    pub fn from_bytes(bytes: &[u8]) -> (r: Option<Seed>)
        ensures
            r matches Some(s) ==> serialize(s@) == bytes@ && valid_phrase(s@.0) && fits(s@),
            forall|v: SeedView|
                #![trigger serialize(v)]
                serialize(v) == bytes@ && valid_phrase(v.0) && fits(v) ==> (r is Some && r->0@ == v),
    {
        let len = bytes.len();
        proof {
            assert forall|v: SeedView| #![trigger serialize(v)] serialize(v) == bytes@ && fits(v) implies
                serialize_parts(v) by {
                lemma_serialize_parts(v);
            }
        }
        if len < 5 {
            return None;
        }
        let n32: u32 = ((bytes[0] as u32) << 24u32) | ((bytes[1] as u32) << 16u32) | ((bytes[2] as u32) << 8u32) | (bytes[3] as u32);
        proof {
            lemma_from_be32_round_trip(bytes@[0], bytes@[1], bytes@[2], bytes@[3]);
            assert forall|v: SeedView| #![trigger serialize(v)] serialize(v) == bytes@ && fits(v) implies
                encode_utf8(v.0).len() == n32 as nat by {
                let k = encode_utf8(v.0).len() as u32;
                lemma_be32_round_trip(k);
                assert(bytes@.subrange(0, 4) == be32(k));
                assert(bytes@[0] == be32(k)[0] && bytes@[1] == be32(k)[1]
                    && bytes@[2] == be32(k)[2] && bytes@[3] == be32(k)[3]);
            }
        }
        let n: usize = n32 as usize;
        if n > len - 5 {
            return None;
        }
        let phrase_bytes = copy_range(bytes, 4, 4 + n);
        let ghost pb = phrase_bytes@;
        let phrase = match crate::crypto::string_from_utf8(phrase_bytes) {
            Some(p) => p,
            None => return None,
        };
        let flag = bytes[4 + n];
        let passphrase = if flag == 0 {
            if len != 5 + n {
                return None;
            }
            None
        } else if flag == 1 {
            let rest = copy_range(bytes, 5 + n, len);
            let ghost rb = rest@;
            let p = match crate::crypto::string_from_utf8(rest) {
                Some(p) => p,
                None => return None,
            };
            assert(encode_utf8(p@) == rb);
            Some(p)
        } else {
            return None;
        };
        let mnemonic = match Mnemonic::from_stored(phrase) {
            Some(m) => m,
            None => return None,
        };
        if len > 0xFFFF_FFFF {
            return None;
        }
        let seed = Seed { mnemonic, passphrase };
        assert(encode_utf8(seed@.0) == pb);
        assert(serialize(seed@) =~= bytes@);
        Some(seed)
    }
}

/// The pieces of `serialize(v)` at their offsets.
pub open spec fn serialize_parts(v: SeedView) -> bool {
    let s = serialize(v);
    let k = encode_utf8(v.0).len();
    &&& k <= 0xFFFF_FFFF
    &&& s.subrange(0, 4) == be32(k as u32)
    &&& s.subrange(4, 4 + k as int) == encode_utf8(v.0)
    &&& s.len() >= 5 + k
    &&& s[4 + k as int] == (if v.1 is None { 0u8 } else { 1u8 })
    &&& (v.1 is None ==> s.len() == 5 + k)
    &&& (v.1 matches Some(p) ==> s.subrange(5 + k as int, s.len() as int) == encode_utf8(p))
}

proof fn lemma_serialize_parts(v: SeedView)
    requires
        fits(v),
    ensures
        serialize_parts(v),
{
    let s = serialize(v);
    let k = encode_utf8(v.0).len();
    assert(s.subrange(0, 4) =~= be32(k as u32));
    assert(s.subrange(4, 4 + k as int) =~= encode_utf8(v.0));
    if let Some(p) = v.1 {
        assert(s.subrange(5 + k as int, s.len() as int) =~= encode_utf8(p));
    }
}

} // verus!
