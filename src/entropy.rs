//! Seed entropy: several generators and host readings mixed through HMAC-SHA512.

use vstd::prelude::*;
use vstd::utf8::*;

use crate::bytes::extend_bytes;
use crate::crypto::{chacha20_random_bytes, hc128_random_bytes, hmac_sha512, hmac_sha512_of, os_random_bytes};
use crate::types::WordCount;

verus! {

/// What the host contributes to seed entropy, read by the caller.
pub enum HostEntropy {
    /// Host introspection worked: a block of fast-changing readings (time,
    /// memory, processes, load) and a block of fixed facts (host name, OS,
    /// CPU, users), each already serialized.
    Introspected { dynamic_events: Vec<u8>, static_events: Vec<u8> },
    /// Host introspection is unavailable: only a high-resolution timestamp.
    TimestampOnly { nanos: u128 },
}

/// The HMAC key that labels seed entropy: the bytes of `keechain-entropy`.
pub open spec fn entropy_label() -> Seq<u8> {
    encode_utf8(seq!['k', 'e', 'e', 'c', 'h', 'a', 'i', 'n', '-', 'e', 'n', 't', 'r', 'o', 'p', 'y'])
}

/// Sixteen big-endian bytes of a 128-bit number.
pub open spec fn be128(n: u128) -> Seq<u8> {
    Seq::new(16, |i: int| (n >> (8 * (15 - i)) as u128) as u8)
}

pub open spec fn host_block(host: HostEntropy) -> Seq<u8> {
    match host {
        HostEntropy::Introspected { dynamic_events, static_events } => dynamic_events@ + static_events@,
        HostEntropy::TimestampOnly { nanos } => be128(nanos),
    }
}

/// The message fed to the HMAC, in order: the three generators' bytes, the
/// host's block, then the caller's entropy if any.
pub open spec fn mix_message(
    os: Seq<u8>,
    hc: Seq<u8>,
    chacha: Seq<u8>,
    host: HostEntropy,
    custom: Option<Seq<u8>>,
) -> Seq<u8> {
    os + hc + chacha + host_block(host) + match custom {
        None => Seq::<u8>::empty(),
        Some(c) => c,
    }
}

/// Seed entropy for a word count: the HMAC-SHA512 of the message under the
/// label, truncated to `words * 4 / 3` bytes.
pub open spec fn mixed(
    word_count: WordCount,
    os: Seq<u8>,
    hc: Seq<u8>,
    chacha: Seq<u8>,
    host: HostEntropy,
    custom: Option<Seq<u8>>,
) -> Seq<u8> {
    hmac_sha512_of(entropy_label(), mix_message(os, hc, chacha, host, custom)).subrange(
        0,
        word_count.spec_entropy_len() as int,
    )
}

pub open spec fn opt_bytes(custom: Option<&[u8]>) -> Option<Seq<u8>> {
    match custom {
        None => None,
        Some(c) => Some(c@),
    }
}

fn push_be128(out: &mut Vec<u8>, n: u128)
    ensures
        final(out)@ == old(out)@ + be128(n),
{
    let mut i: usize = 0;
    while i < 16
        invariant
            i <= 16,
            out@ == old(out)@ + be128(n).subrange(0, i as int),
        decreases 16 - i,
    {
        let shift: u128 = (8 * (15 - i)) as u128;
        out.push((n >> shift) as u8);
        i += 1;
        assert(out@ =~= old(out)@ + be128(n).subrange(0, i as int));
    }
    assert(be128(n).subrange(0, 16) =~= be128(n));
}

/// Mixes the sources into seed entropy; exactly 16, 24 or 32 bytes for 12,
/// 18 or 24 words, whatever the sources hold.
pub fn mix(
    word_count: WordCount,
    os: &[u8],
    hc: &[u8],
    chacha: &[u8],
    host: &HostEntropy,
    custom: Option<&[u8]>,
) -> (r: Vec<u8>)
    ensures
        r@ == mixed(word_count, os@, hc@, chacha@, *host, opt_bytes(custom)),
        r@.len() == word_count.spec_entropy_len(),
{
    let mut msg: Vec<u8> = Vec::new();
    extend_bytes(&mut msg, os);
    extend_bytes(&mut msg, hc);
    extend_bytes(&mut msg, chacha);
    match host {
        HostEntropy::Introspected { dynamic_events, static_events } => {
            extend_bytes(&mut msg, dynamic_events.as_slice());
            extend_bytes(&mut msg, static_events.as_slice());
        },
        HostEntropy::TimestampOnly { nanos } => {
            push_be128(&mut msg, *nanos);
        },
    }
    match custom {
        None => {},
        Some(c) => {
            extend_bytes(&mut msg, c);
        },
    }
    assert(msg@ =~= mix_message(os@, hc@, chacha@, *host, opt_bytes(custom)));
    proof {
        reveal_strlit("keechain-entropy");
    }
    let text: &str = "keechain-entropy";
    assert(text@ =~= seq!['k', 'e', 'e', 'c', 'h', 'a', 'i', 'n', '-', 'e', 'n', 't', 'r', 'o', 'p', 'y']);
    let label: &[u8] = text.as_bytes();
    assert(label@ == entropy_label());
    let digest = hmac_sha512(label, msg.as_slice());
    let len: usize = word_count.entropy_len();
    let mut out: Vec<u8> = Vec::new();
    let mut i: usize = 0;
    while i < len
        invariant
            i <= len,
            len == word_count.spec_entropy_len(),
            len <= 32,
            digest@.len() == 64,
            out@ == digest@.subrange(0, i as int),
        decreases len - i,
    {
        out.push(digest[i]);
        i += 1;
        assert(out@ =~= digest@.subrange(0, i as int));
    }
    out
}

/// Draws 32 bytes each from the OS generator, an HC-128 stream and a ChaCha20
/// stream, and mixes them with the host's block and the caller's entropy.
pub fn entropy(word_count: WordCount, host: &HostEntropy, custom: Option<&[u8]>) -> (r: Vec<u8>)
    ensures
        r@.len() == word_count.spec_entropy_len(),
        exists|os: Seq<u8>, hc: Seq<u8>, chacha: Seq<u8>|
            os.len() == 32 && hc.len() == 32 && chacha.len() == 32
            && r@ == #[trigger] mixed(word_count, os, hc, chacha, *host, opt_bytes(custom)),
{
    let os = os_random_bytes(32);
    let hc = hc128_random_bytes();
    let chacha = chacha20_random_bytes();
    mix(word_count, os.as_slice(), hc.as_slice(), chacha.as_slice(), host, custom)
}

} // verus!
