//! Output descriptor templates chosen by the purpose of a derivation path.

use vstd::prelude::*;
use vstd::string::*;

use std::str::FromStr;

use crate::error::Error;

verus! {

/// One step of a BIP32 derivation path.
#[derive(Debug, Clone, Copy, PartialEq, Eq, Structural)]
pub struct ChildNumber {
    pub index: u32,
    pub hardened: bool,
}

impl ChildNumber {
    /// Indices fit in 31 bits; the hardened flag is the 32nd.
    pub open spec fn wf(self) -> bool {
        self.index < 0x8000_0000
    }

    pub fn hardened(index: u32) -> (r: ChildNumber)
        requires
            index < 0x8000_0000,
        ensures
            r == (ChildNumber { index, hardened: true }),
            r.wf(),
    {
        ChildNumber { index, hardened: true }
    }

    pub fn normal(index: u32) -> (r: ChildNumber)
        requires
            index < 0x8000_0000,
        ensures
            r == (ChildNumber { index, hardened: false }),
            r.wf(),
    {
        ChildNumber { index, hardened: false }
    }
}

/// A BIP32 derivation path: the steps below the master key, in order.
#[derive(Debug, Clone, PartialEq, Eq)]
pub struct DerivationPath {
    pub children: Vec<ChildNumber>,
}

/// Output script family, chosen by the purpose field of the path.
#[derive(Debug, Clone, Copy, PartialEq, Eq, Structural)]
pub enum ScriptType {
    /// purpose 44': `pkh(...)`
    Legacy,
    /// purpose 49': `sh(wpkh(...))`
    NestedSegwit,
    /// purpose 84': `wpkh(...)`
    NativeSegwit,
    /// purpose 86': `tr(...)`
    Taproot,
}

/// The script family of a hardened purpose number, if it is one of the four supported.
pub open spec fn spec_script_of_purpose(purpose: ChildNumber) -> Option<ScriptType> {
    if !purpose.hardened {
        None
    } else if purpose.index == 44 {
        Some(ScriptType::Legacy)
    } else if purpose.index == 49 {
        Some(ScriptType::NestedSegwit)
    } else if purpose.index == 84 {
        Some(ScriptType::NativeSegwit)
    } else if purpose.index == 86 {
        Some(ScriptType::Taproot)
    } else {
        None
    }
}

/// A coin-type step is valid when it is 0' (mainnet family) or 1' (test family).
pub open spec fn spec_valid_coin(coin: ChildNumber) -> bool {
    coin.hardened && (coin.index == 0 || coin.index == 1)
}

/// The account step: the third step of the path, 0' when the path has only two.
pub open spec fn spec_account(path: Seq<ChildNumber>) -> ChildNumber {
    if path.len() > 2 {
        path[2]
    } else {
        ChildNumber { index: 0, hardened: true }
    }
}

pub open spec fn digit_char(d: nat) -> char {
    if d == 0 { '0' }
    else if d == 1 { '1' }
    else if d == 2 { '2' }
    else if d == 3 { '3' }
    else if d == 4 { '4' }
    else if d == 5 { '5' }
    else if d == 6 { '6' }
    else if d == 7 { '7' }
    else if d == 8 { '8' }
    else { '9' }
}

pub open spec fn hex_char(d: nat) -> char {
    if d < 10 {
        digit_char(d)
    } else if d == 10 { 'a' }
    else if d == 11 { 'b' }
    else if d == 12 { 'c' }
    else if d == 13 { 'd' }
    else if d == 14 { 'e' }
    else { 'f' }
}

/// Decimal notation of a natural number, without leading zeros.
pub open spec fn decimal(n: nat) -> Seq<char>
    decreases n,
{
    if n < 10 {
        seq![digit_char(n)]
    } else {
        decimal(n / 10).push(digit_char(n % 10))
    }
}

/// Two lower-case hex digits of a byte.
pub open spec fn hex_byte(b: u8) -> Seq<char> {
    seq![hex_char(b as nat / 16), hex_char(b as nat % 16)]
}

/// Lower-case hex of four fingerprint bytes.
pub open spec fn hex_fingerprint(fp: Seq<u8>) -> Seq<char> {
    hex_byte(fp[0]) + hex_byte(fp[1]) + hex_byte(fp[2]) + hex_byte(fp[3])
}

/// A derivation step as written in a key origin: `84h` when hardened, `7` otherwise.
pub open spec fn child_text(c: ChildNumber) -> Seq<char> {
    if c.hardened {
        decimal(c.index as nat).push('h')
    } else {
        decimal(c.index as nat)
    }
}

/// `[fingerprint/purpose/coin/account]pubkey/change/*`
pub open spec fn key_text(
    fp: Seq<u8>,
    pubkey: Seq<char>,
    purpose: ChildNumber,
    coin: ChildNumber,
    account: ChildNumber,
    change: bool,
) -> Seq<char> {
    seq!['['] + hex_fingerprint(fp) + seq!['/'] + child_text(purpose) + seq!['/'] + child_text(coin)
        + seq!['/'] + child_text(account) + seq![']'] + pubkey + seq!['/']
        + seq![if change { '1' } else { '0' }] + seq!['/', '*']
}

/// The descriptor template of a script family around a key expression.
pub open spec fn template(script: ScriptType, key: Seq<char>) -> Seq<char> {
    match script {
        ScriptType::Legacy => seq!['p', 'k', 'h', '('] + key + seq![')'],
        ScriptType::NestedSegwit => seq!['s', 'h', '(', 'w', 'p', 'k', 'h', '('] + key + seq![')', ')'],
        ScriptType::NativeSegwit => seq!['w', 'p', 'k', 'h', '('] + key + seq![')'],
        ScriptType::Taproot => seq!['t', 'r', '('] + key + seq![')'],
    }
}

/// The script family of a path, or the error it is rejected with: the
/// purpose comes first, then the coin.
pub open spec fn spec_check_path(path: Seq<ChildNumber>) -> Result<ScriptType, Error> {
    if path.len() == 0 || spec_script_of_purpose(path[0]).is_none() {
        Err(Error::UnsupportedDerivationPath)
    } else if path.len() < 2 || !spec_valid_coin(path[1]) {
        Err(Error::InvalidDerivationPath)
    } else {
        Ok(spec_script_of_purpose(path[0]).unwrap())
    }
}

/// What `build` yields for a path, or the error it rejects the path with.
pub open spec fn spec_build(
    fp: Seq<u8>,
    pubkey: Seq<char>,
    path: Seq<ChildNumber>,
    change: bool,
) -> Result<(ScriptType, Seq<char>), Error> {
    match spec_check_path(path) {
        Err(e) => Err(e),
        Ok(script) => Ok(
            (
                script,
                template(
                    script,
                    key_text(fp, pubkey, path[0], path[1], spec_account(path), change),
                ),
            ),
        ),
    }
}

/// The purpose step alone picks the template, whatever the fingerprint, key,
/// coin, account and change: 44' gives `pkh(...)`, 49' `sh(wpkh(...))`, 84'
/// `wpkh(...)` and 86' `tr(...)`, while purpose 0' is rejected with
/// `UnsupportedDerivationPath`.
pub proof fn lemma_purpose_selects_template(
    fp: Seq<u8>,
    pubkey: Seq<char>,
    path: Seq<ChildNumber>,
    change: bool,
)
    requires
        path.len() >= 2,
        spec_valid_coin(path[1]),
    ensures
        path[0] == (ChildNumber { index: 44, hardened: true }) ==> spec_build(fp, pubkey, path, change) == Ok::<
            (ScriptType, Seq<char>),
            Error,
        >((ScriptType::Legacy, seq!['p', 'k', 'h', '('] + spec_key(fp, pubkey, path, change) + seq![')'])),
        path[0] == (ChildNumber { index: 49, hardened: true }) ==> spec_build(fp, pubkey, path, change) == Ok::<
            (ScriptType, Seq<char>),
            Error,
        >(
            (
                ScriptType::NestedSegwit,
                seq!['s', 'h', '(', 'w', 'p', 'k', 'h', '('] + spec_key(fp, pubkey, path, change) + seq![')', ')'],
            ),
        ),
        path[0] == (ChildNumber { index: 84, hardened: true }) ==> spec_build(fp, pubkey, path, change) == Ok::<
            (ScriptType, Seq<char>),
            Error,
        >((ScriptType::NativeSegwit, seq!['w', 'p', 'k', 'h', '('] + spec_key(fp, pubkey, path, change) + seq![')'])),
        path[0] == (ChildNumber { index: 86, hardened: true }) ==> spec_build(fp, pubkey, path, change) == Ok::<
            (ScriptType, Seq<char>),
            Error,
        >((ScriptType::Taproot, seq!['t', 'r', '('] + spec_key(fp, pubkey, path, change) + seq![')'])),
        path[0] == (ChildNumber { index: 0, hardened: true }) ==> spec_build(fp, pubkey, path, change) == Err::<
            (ScriptType, Seq<char>),
            Error,
        >(Error::UnsupportedDerivationPath),
{
}

/// The key expression of a path: `[fp/purpose/coin/account]pubkey/change/*`.
pub open spec fn spec_key(fp: Seq<u8>, pubkey: Seq<char>, path: Seq<ChildNumber>, change: bool) -> Seq<char> {
    key_text(fp, pubkey, path[0], path[1], spec_account(path), change)
}

/// An output descriptor: its script family and its text.
#[derive(Debug, Clone)]
pub struct Descriptor {
    pub script_type: ScriptType,
    pub text: String,
}

/// The canonical text of a descriptor with its `#` checksum, as miniscript writes it.
pub uninterp spec fn miniscript_text_of(text: Seq<char>) -> Seq<char>;

/// Whether `miniscript::Descriptor::<String>::from_str` accepts a text.
pub uninterp spec fn miniscript_accepts(text: Seq<char>) -> bool;

/// Relies on `miniscript::Descriptor::<String>::from_str` and its `Display`,
/// which writes the descriptor back with its checksum.
#[verifier::external_body]
fn miniscript_checksummed(text: &str) -> (r: Option<String>)
    ensures
        r is Some <==> miniscript_accepts(text@),
        r matches Some(t) ==> t@ == miniscript_text_of(text@),
{
    bdk::miniscript::Descriptor::<String>::from_str(text).ok().map(|d| d.to_string())
}

impl Descriptor {
    /// The descriptor's text with its checksum; `ParseError` exactly when miniscript rejects it.
    pub fn to_checksummed(&self) -> (r: Result<String, Error>)
        ensures
            r is Ok <==> miniscript_accepts(self.text@),
            r matches Ok(t) ==> t@ == miniscript_text_of(self.text@),
            r is Err ==> r == Err::<String, Error>(Error::ParseError),
    {
        match miniscript_checksummed(self.text.as_str()) {
            Some(t) => Ok(t),
            None => Err(Error::ParseError),
        }
    }
}

fn digit_str(d: u32) -> (r: &'static str)
    requires
        d < 10,
    ensures
        r@ == seq![digit_char(d as nat)],
{
    proof {
        reveal_strlit("0");
        reveal_strlit("1");
        reveal_strlit("2");
        reveal_strlit("3");
        reveal_strlit("4");
        reveal_strlit("5");
        reveal_strlit("6");
        reveal_strlit("7");
        reveal_strlit("8");
        reveal_strlit("9");
    }
    match d {
        0 => "0",
        1 => "1",
        2 => "2",
        3 => "3",
        4 => "4",
        5 => "5",
        6 => "6",
        7 => "7",
        8 => "8",
        _ => "9",
    }
}

fn hex_str(d: u8) -> (r: &'static str)
    requires
        d < 16,
    ensures
        r@ == seq![hex_char(d as nat)],
{
    if d < 10 {
        digit_str(d as u32)
    } else {
        proof {
            reveal_strlit("a");
            reveal_strlit("b");
            reveal_strlit("c");
            reveal_strlit("d");
            reveal_strlit("e");
            reveal_strlit("f");
        }
        match d {
            10 => "a",
            11 => "b",
            12 => "c",
            13 => "d",
            14 => "e",
            _ => "f",
        }
    }
}

/// Appends the decimal notation of `n`.
pub fn push_decimal(out: &mut String, n: u32)
    ensures
        final(out)@ == old(out)@ + decimal(n as nat),
    decreases n,
{
    if n < 10 {
        out.append(digit_str(n));
    } else {
        push_decimal(out, n / 10);
        out.append(digit_str(n % 10));
        assert(decimal(n as nat) == decimal((n / 10) as nat).push(digit_char((n % 10) as nat)));
    }
}

fn push_hex_byte(out: &mut String, b: u8)
    ensures
        final(out)@ == old(out)@ + hex_byte(b),
{
    out.append(hex_str(b / 16));
    out.append(hex_str(b % 16));
}

/// Appends the lower-case hex of a fingerprint.
pub(crate) fn push_fingerprint(out: &mut String, fp: &[u8; 4])
    ensures
        final(out)@ == old(out)@ + hex_fingerprint(fp@),
{
    push_hex_byte(out, fp[0]);
    push_hex_byte(out, fp[1]);
    push_hex_byte(out, fp[2]);
    push_hex_byte(out, fp[3]);
    assert(out@ =~= old(out)@ + hex_fingerprint(fp@));
}

pub(crate) fn push_child(out: &mut String, c: ChildNumber)
    ensures
        final(out)@ == old(out)@ + child_text(c),
{
    push_decimal(out, c.index);
    if c.hardened {
        proof { reveal_strlit("h"); }
        out.append("h");
    }
}

fn push_str(out: &mut String, s: &str)
    ensures
        final(out)@ == old(out)@ + s@,
{
    out.append(s);
}

fn script_of_purpose(purpose: ChildNumber) -> (r: Option<ScriptType>)
    ensures
        r == spec_script_of_purpose(purpose),
{
    if !purpose.hardened {
        None
    } else if purpose.index == 44 {
        Some(ScriptType::Legacy)
    } else if purpose.index == 49 {
        Some(ScriptType::NestedSegwit)
    } else if purpose.index == 84 {
        Some(ScriptType::NativeSegwit)
    } else if purpose.index == 86 {
        Some(ScriptType::Taproot)
    } else {
        None
    }
}


fn key_expression(
    fingerprint: &[u8; 4],
    pubkey: &str,
    purpose: ChildNumber,
    coin: ChildNumber,
    account: ChildNumber,
    change: bool,
) -> (r: String)
    ensures
        r@ == key_text(fingerprint@, pubkey@, purpose, coin, account, change),
{
    let mut out = String::new();
    proof {
        reveal_strlit("[");
        reveal_strlit("/");
        reveal_strlit("]");
        reveal_strlit("0");
        reveal_strlit("1");
        reveal_strlit("/*");
    }
    push_str(&mut out, "[");
    push_fingerprint(&mut out, fingerprint);
    push_str(&mut out, "/");
    push_child(&mut out, purpose);
    push_str(&mut out, "/");
    push_child(&mut out, coin);
    push_str(&mut out, "/");
    push_child(&mut out, account);
    push_str(&mut out, "]");
    push_str(&mut out, pubkey);
    push_str(&mut out, "/");
    if change {
        push_str(&mut out, "1");
    } else {
        push_str(&mut out, "0");
    }
    push_str(&mut out, "/*");
    assert(out@ =~= key_text(fingerprint@, pubkey@, purpose, coin, account, change));
    out
}

pub(crate) fn wrap_template(script: ScriptType, key: &str) -> (r: String)
    ensures
        r@ == template(script, key@),
{
    let mut out = String::new();
    proof {
        reveal_strlit("pkh(");
        reveal_strlit("sh(wpkh(");
        reveal_strlit("wpkh(");
        reveal_strlit("tr(");
        reveal_strlit(")");
        reveal_strlit("))");
    }
    match script {
        ScriptType::Legacy => {
            push_str(&mut out, "pkh(");
            push_str(&mut out, key);
            push_str(&mut out, ")");
        },
        ScriptType::NestedSegwit => {
            push_str(&mut out, "sh(wpkh(");
            push_str(&mut out, key);
            push_str(&mut out, "))");
        },
        ScriptType::NativeSegwit => {
            push_str(&mut out, "wpkh(");
            push_str(&mut out, key);
            push_str(&mut out, ")");
        },
        ScriptType::Taproot => {
            push_str(&mut out, "tr(");
            push_str(&mut out, key);
            push_str(&mut out, ")");
        },
    }
    assert(out@ =~= template(script, key@));
    out
}

/// Checks the purpose and coin steps of a path.
pub fn check_path(path: &DerivationPath) -> (r: Result<ScriptType, Error>)
    ensures
        r == spec_check_path(path.children@),
{
    let children = &path.children;
    if children.len() == 0 {
        return Err(Error::UnsupportedDerivationPath);
    }
    let script = match script_of_purpose(children[0]) {
        Some(s) => s,
        None => return Err(Error::UnsupportedDerivationPath),
    };
    if children.len() < 2 {
        return Err(Error::InvalidDerivationPath);
    }
    let coin = children[1];
    if !(coin.hardened && (coin.index == 0 || coin.index == 1)) {
        return Err(Error::InvalidDerivationPath);
    }
    Ok(script)
}

/// The purpose, coin and account steps of a path, the account 0' when absent.
pub open spec fn spec_account_path(path: Seq<ChildNumber>) -> Seq<ChildNumber> {
    seq![path[0], path[1], spec_account(path)]
}

/// The account prefix of a path that `check_path` accepted.
pub fn account_path(path: &DerivationPath) -> (r: DerivationPath)
    requires
        path.children@.len() >= 2,
    ensures
        r.children@ == spec_account_path(path.children@),
{
    let children = &path.children;
    let mut out: Vec<ChildNumber> = Vec::new();
    out.push(children[0]);
    out.push(children[1]);
    if children.len() > 2 {
        out.push(children[2]);
    } else {
        out.push(ChildNumber { index: 0, hardened: true });
    }
    assert(out@ =~= spec_account_path(path.children@));
    DerivationPath { children: out }
}

/// Builds the descriptor of the account that `path` names, for receive
/// (`change == false`, suffix `/0/*`) or change (`/1/*`) addresses.
///
/// The purpose step selects the template: 44' `pkh`, 49' `sh(wpkh)`,
/// 84' `wpkh`, 86' `tr`; any other purpose is `UnsupportedDerivationPath`.
/// The coin step must be 0' or 1' (`InvalidDerivationPath`), and the
/// account step is 0' when the path stops after the coin. The text is not
/// checked by miniscript here; `Descriptor::to_checksummed` does that.
pub fn build(
    fingerprint: &[u8; 4],
    pubkey: &str,
    path: &DerivationPath,
    change: bool,
) -> (r: Result<Descriptor, Error>)
    ensures
        match spec_build(fingerprint@, pubkey@, path.children@, change) {
            Ok((script, text)) => r matches Ok(d) && d.script_type == script && d.text@ == text,
            Err(e) => r == Err::<Descriptor, Error>(e),
        },
{
    let script = match check_path(path) {
        Ok(s) => s,
        Err(e) => return Err(e),
    };
    let children = &path.children;
    let purpose = children[0];
    let coin = children[1];
    let account = if children.len() > 2 {
        children[2]
    } else {
        ChildNumber { index: 0, hardened: true }
    };
    let key = key_expression(fingerprint, pubkey, purpose, coin, account, change);
    let text = wrap_template(script, key.as_str());
    Ok(Descriptor { script_type: script, text })
}

} // verus!
