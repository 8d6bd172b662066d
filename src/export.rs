//! Descriptor export of one account for every supported script family.

use vstd::prelude::*;
use vstd::string::*;

use crate::derivation::{account_descriptor, bip32_fingerprint_of, bip32_xpub_bytes_of, bip32_xpub_of, RootKey};
use crate::descriptor::{hex_fingerprint, spec_account_path, spec_build, ChildNumber, DerivationPath, Descriptor, ScriptType};
use crate::psbt::path_suffix;
use crate::error::Error;
use crate::types::{ElectrumSupportedScripts, Network};

verus! {

/// Coin type of a network: 0' on mainnet, 1' on every test network.
pub open spec fn spec_coin(network: Network) -> u32 {
    if network == Network::Bitcoin { 0 } else { 1 }
}

/// The purposes an export covers, in order: 44', 49', 84', 86'.
pub open spec fn export_purpose(i: int) -> u32 {
    if i == 0 { 44 } else if i == 1 { 49 } else if i == 2 { 84 } else { 86 }
}

/// The account path of the `i`-th purpose of an export.
pub open spec fn export_path(i: int, network: Network, account: u32) -> Seq<ChildNumber> {
    seq![
        ChildNumber { index: export_purpose(i), hardened: true },
        ChildNumber { index: spec_coin(network), hardened: true },
        ChildNumber { index: account, hardened: true },
    ]
}

/// The `k`-th entry of an export: purpose `k / 2`, receive for even `k`, change for odd.
pub open spec fn export_entry(root: Seq<char>, network: Network, account: u32, k: int) -> Result<(ScriptType, Seq<char>), Error> {
    let path = export_path(k / 2, network, account);
    spec_build(bip32_fingerprint_of(root), bip32_xpub_of(root, spec_account_path(path)), path, k % 2 == 1)
}

/// The descriptors of one account for every supported script family: for
/// 44', 49', 84' and 86' in turn, the receive descriptor then the change one.
pub fn export_descriptors(root: &RootKey, network: Network, account: u32) -> (r: Vec<Descriptor>)
    requires
        account < 0x8000_0000,
    ensures
        r@.len() == 8,
        forall|k: int|
            0 <= k < 8 ==> export_entry(root@, network, account, k) == Ok::<(ScriptType, Seq<char>), Error>(
                (#[trigger] r@[k].script_type, r@[k].text@),
            ),
{
    let coin: u32 = if network == Network::Bitcoin { 0 } else { 1 };
    let mut out: Vec<Descriptor> = Vec::new();
    let mut i: usize = 0;
    while i < 4
        invariant
            i <= 4,
            account < 0x8000_0000,
            coin == spec_coin(network),
            out@.len() == 2 * i,
            forall|k: int|
                0 <= k < 2 * i ==> export_entry(root@, network, account, k) == Ok::<(ScriptType, Seq<char>), Error>(
                    (#[trigger] out@[k].script_type, out@[k].text@),
                ),
        decreases 4 - i,
    {
        let purpose: u32 = if i == 0 { 44 } else if i == 1 { 49 } else if i == 2 { 84 } else { 86 };
        let path = DerivationPath {
            children: vec![ChildNumber::hardened(purpose), ChildNumber::hardened(coin), ChildNumber::hardened(account)],
        };
        assert(path.children@ =~= export_path(i as int, network, account));
        let mut change = false;
        let mut round: usize = 0;
        while round < 2
            invariant
                round <= 2,
                change == (round >= 1),
                i < 4,
                path.children@ == export_path(i as int, network, account),
                out@.len() == 2 * i + round,
                forall|k: int|
                    0 <= k < 2 * i + round ==> export_entry(root@, network, account, k) == Ok::<
                        (ScriptType, Seq<char>),
                        Error,
                    >((#[trigger] out@[k].script_type, out@[k].text@)),
            decreases 2 - round,
        {
            let d = account_descriptor(root, &path, change).unwrap();
            let ghost k = 2 * i + round;
            assert(k / 2 == i as int && (k % 2 == 1) == change);
            out.push(d);
            change = true;
            round += 1;
        }
        i += 1;
    }
    out
}

/// The `importdescriptors` document of a node wallet: the receive and change
/// descriptors, both active, from now on.
pub open spec fn node_document(receive: Seq<char>, change: Seq<char>) -> Seq<char> {
    "[{\"desc\":\""@ + receive + "\",\"timestamp\":\"now\",\"active\":true,\"internal\":false},{\"desc\":\""@
        + change + "\",\"timestamp\":\"now\",\"active\":true,\"internal\":true}]"@
}

/// The node-wallet document of a receive and a change descriptor, each with
/// its checksum; `ParseError` exactly when miniscript rejects either.
pub fn node_wallet_document(receive: &Descriptor, change: &Descriptor) -> (r: Result<String, Error>)
    ensures
        r is Ok <==> crate::descriptor::miniscript_accepts(receive.text@) && crate::descriptor::miniscript_accepts(
            change.text@,
        ),
        r matches Ok(doc) ==> doc@ == node_document(
            crate::descriptor::miniscript_text_of(receive.text@),
            crate::descriptor::miniscript_text_of(change.text@),
        ),
        r is Err ==> r == Err::<String, Error>(Error::ParseError),
{
    let r = match receive.to_checksummed() {
        Ok(t) => t,
        Err(e) => return Err(e),
    };
    let c = match change.to_checksummed() {
        Ok(t) => t,
        Err(e) => return Err(e),
    };
    let mut out = String::new();
    out.append("[{\"desc\":\"");
    out.append(r.as_str());
    out.append("\",\"timestamp\":\"now\",\"active\":true,\"internal\":false},{\"desc\":\"");
    out.append(c.as_str());
    out.append("\",\"timestamp\":\"now\",\"active\":true,\"internal\":true}]");
    Ok(out)
}

pub open spec fn network_text(network: Network) -> Seq<char> {
    match network {
        Network::Bitcoin => "bitcoin"@,
        Network::Testnet => "testnet"@,
        Network::Signet => "signet"@,
        Network::Regtest => "regtest"@,
    }
}

pub open spec fn script_text(script: ScriptType) -> Seq<char> {
    match script {
        ScriptType::Legacy => "legacy"@,
        ScriptType::NestedSegwit => "nested-segwit"@,
        ScriptType::NativeSegwit => "native-segwit"@,
        ScriptType::Taproot => "taproot"@,
    }
}

/// The suggested file name of an export: `{name}-{network}-{script}.json`.
pub fn export_file_name(name: &str, network: Network, script: ScriptType) -> (r: String)
    ensures
        r@ == name@ + "-"@ + network_text(network) + "-"@ + script_text(script) + ".json"@,
{
    let mut out = String::new();
    out.append(name);
    out.append("-");
    match network {
        Network::Bitcoin => out.append("bitcoin"),
        Network::Testnet => out.append("testnet"),
        Network::Signet => out.append("signet"),
        Network::Regtest => out.append("regtest"),
    }
    out.append("-");
    match script {
        ScriptType::Legacy => out.append("legacy"),
        ScriptType::NestedSegwit => out.append("nested-segwit"),
        ScriptType::NativeSegwit => out.append("native-segwit"),
        ScriptType::Taproot => out.append("taproot"),
    }
    out.append(".json");
    out
}


/// The base58check text of a payload.
pub uninterp spec fn base58check_text_of(payload: Seq<u8>) -> Seq<char>;

/// Relies on `bitcoin::util::base58::check_encode_slice`.
#[verifier::external_body]
fn base58check_encode(payload: &[u8]) -> (r: String)
    ensures
        r@ == base58check_text_of(payload@),
{
    bitcoin::util::base58::check_encode_slice(payload)
}

/// SLIP-132 version bytes of an extended public key: `xpub`/`tpub` for
/// legacy, `ypub`/`upub` for nested segwit, `zpub`/`vpub` for native segwit.
pub open spec fn slip132_version(script: ElectrumSupportedScripts, mainnet: bool) -> Seq<u8> {
    match (script, mainnet) {
        (ElectrumSupportedScripts::Legacy, true) => seq![0x04u8, 0x88, 0xb2, 0x1e],
        (ElectrumSupportedScripts::Segwit, true) => seq![0x04u8, 0x9d, 0x7c, 0xb2],
        (ElectrumSupportedScripts::NativeSegwit, true) => seq![0x04u8, 0xb2, 0x47, 0x46],
        (ElectrumSupportedScripts::Legacy, false) => seq![0x04u8, 0x35, 0x87, 0xcf],
        (ElectrumSupportedScripts::Segwit, false) => seq![0x04u8, 0x4a, 0x52, 0x62],
        (ElectrumSupportedScripts::NativeSegwit, false) => seq![0x04u8, 0x5f, 0x1c, 0xf6],
    }
}

fn slip132_version_bytes(script: ElectrumSupportedScripts, mainnet: bool) -> (r: [u8; 4])
    ensures
        r@ == slip132_version(script, mainnet),
{
    let r: [u8; 4] = match (script, mainnet) {
        (ElectrumSupportedScripts::Legacy, true) => [0x04, 0x88, 0xb2, 0x1e],
        (ElectrumSupportedScripts::Segwit, true) => [0x04, 0x9d, 0x7c, 0xb2],
        (ElectrumSupportedScripts::NativeSegwit, true) => [0x04, 0xb2, 0x47, 0x46],
        (ElectrumSupportedScripts::Legacy, false) => [0x04, 0x35, 0x87, 0xcf],
        (ElectrumSupportedScripts::Segwit, false) => [0x04, 0x4a, 0x52, 0x62],
        (ElectrumSupportedScripts::NativeSegwit, false) => [0x04, 0x5f, 0x1c, 0xf6],
    };
    assert(r@ =~= slip132_version(script, mainnet));
    r
}

/// An extended key payload with its first four version bytes replaced.
pub open spec fn with_version(payload: Seq<u8>, version: Seq<u8>) -> Seq<u8> {
    version + payload.subrange(4, payload.len() as int)
}

/// The account path of an Electrum script family.
pub open spec fn electrum_path(script: ElectrumSupportedScripts, network: Network, account: u32) -> Seq<ChildNumber> {
    seq![
        ChildNumber { index: script.spec_purpose(), hardened: true },
        ChildNumber { index: spec_coin(network), hardened: true },
        ChildNumber { index: account, hardened: true },
    ]
}

/// The account `xpub` of an Electrum wallet, in its SLIP-132 version.
pub open spec fn electrum_xpub(root: Seq<char>, script: ElectrumSupportedScripts, network: Network, account: u32) -> Seq<char> {
    base58check_text_of(
        with_version(
            bip32_xpub_bytes_of(root, electrum_path(script, network, account)),
            slip132_version(script, network == Network::Bitcoin),
        ),
    )
}

/// An Electrum wallet file of one watch-only BIP32 keystore.
pub open spec fn electrum_document(derivation: Seq<char>, fingerprint: Seq<char>, xpub: Seq<char>) -> Seq<char> {
    "{\"keystore\":{\"derivation\":\""@ + derivation + "\",\"root_fingerprint\":\""@ + fingerprint
        + "\",\"type\":\"bip32\",\"xprv\":null,\"xpub\":\""@ + xpub + "\"},\"wallet_type\":\"standard\"}"@
}

/// The Electrum wallet file of one account for a script family: its
/// derivation path, the root fingerprint and the SLIP-132 account `xpub`.
pub fn electrum_export(
    root: &RootKey,
    network: Network,
    script: ElectrumSupportedScripts,
    account: u32,
) -> (r: String)
    requires
        account < 0x8000_0000,
    ensures
        r@ == electrum_document(
            "m"@ + path_suffix(electrum_path(script, network, account)),
            hex_fingerprint(bip32_fingerprint_of(root@)),
            electrum_xpub(root@, script, network, account),
        ),
{
    let coin: u32 = if network == Network::Bitcoin { 0 } else { 1 };
    let path = vec![ChildNumber::hardened(script.purpose()), ChildNumber::hardened(coin), ChildNumber::hardened(account)];
    assert(path@ =~= electrum_path(script, network, account));
    let fingerprint = root.fingerprint();
    let payload = root.derive_xpub_bytes(&DerivationPath { children: copy_path_steps(&path) });
    let version = slip132_version_bytes(script, network == Network::Bitcoin);
    let mut versioned: Vec<u8> = Vec::new();
    crate::bytes::extend_bytes(&mut versioned, &version);
    let tail = crate::bytes::copy_range(payload.as_slice(), 4, payload.len());
    crate::bytes::extend_bytes(&mut versioned, tail.as_slice());
    assert(versioned@ =~= with_version(payload@, slip132_version(script, network == Network::Bitcoin)));
    let key = base58check_encode(versioned.as_slice());
    let mut out = String::new();
    out.append("{\"keystore\":{\"derivation\":\"");
    out.append("m");
    crate::psbt::push_path_suffix(&mut out, &path);
    out.append("\",\"root_fingerprint\":\"");
    crate::descriptor::push_fingerprint(&mut out, &fingerprint);
    out.append("\",\"type\":\"bip32\",\"xprv\":null,\"xpub\":\"");
    out.append(key.as_str());
    out.append("\"},\"wallet_type\":\"standard\"}");
    assert(out@ =~= electrum_document(
        "m"@ + path_suffix(electrum_path(script, network, account)),
        hex_fingerprint(bip32_fingerprint_of(root@)),
        electrum_xpub(root@, script, network, account),
    ));
    out
}

fn copy_path_steps(p: &Vec<ChildNumber>) -> (r: Vec<ChildNumber>)
    ensures
        r@ == p@,
{
    let mut out: Vec<ChildNumber> = Vec::new();
    let mut i: usize = 0;
    while i < p.len()
        invariant
            i <= p@.len(),
            out@ == p@.subrange(0, i as int),
        decreases p@.len() - i,
    {
        out.push(p[i]);
        i += 1;
        assert(out@ =~= p@.subrange(0, i as int));
    }
    assert(p@.subrange(0, p@.len() as int) =~= p@);
    out
}

} // verus!
