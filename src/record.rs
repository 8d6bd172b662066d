//! The plaintext of a keychain file: the seed and the saved passphrases.

use vstd::prelude::*;
use vstd::utf8::*;

use crate::bytes::{be32, copy_range, extend_bytes, from_be32, lemma_be32_round_trip, lemma_from_be32_round_trip};
use crate::seed::{valid_phrase, fits, serialize, Seed, SeedView};

verus! {

broadcast use {encode_utf8_valid_utf8, encode_utf8_decode_utf8, decode_utf8_encode_utf8};

/// Each string as a 4-byte big-endian length and its UTF-8, one after another.
pub open spec fn serialize_list(l: Seq<Seq<char>>) -> Seq<u8>
    decreases l.len(),
{
    if l.len() == 0 {
        Seq::<u8>::empty()
    } else {
        be32(encode_utf8(l[0]).len() as u32) + encode_utf8(l[0]) + serialize_list(l.drop_first())
    }
}

/// Every string of the list has at most `u32::MAX` bytes of UTF-8.
pub open spec fn list_fits(l: Seq<Seq<char>>) -> bool {
    forall|i: int| 0 <= i < l.len() ==> #[trigger] encode_utf8(l[i]).len() <= 0xFFFF_FFFF
}

pub open spec fn string_views(v: Seq<String>) -> Seq<Seq<char>> {
    v.map_values(|s: String| s@)
}

proof fn lemma_serialize_list_push(l: Seq<Seq<char>>, x: Seq<char>)
    ensures
        serialize_list(l.push(x)) == serialize_list(l) + be32(encode_utf8(x).len() as u32) + encode_utf8(x),
    decreases l.len(),
{
    if l.len() == 0 {
        assert(l.push(x).drop_first() =~= Seq::<Seq<char>>::empty());
        assert(l.push(x)[0] == x);
        assert(serialize_list(l.push(x).drop_first()) == Seq::<u8>::empty());
        assert(serialize_list(l.push(x)) =~= serialize_list(l) + be32(encode_utf8(x).len() as u32) + encode_utf8(x));
    } else {
        assert(l.push(x).drop_first() =~= l.drop_first().push(x));
        assert(l.push(x)[0] == l[0]);
        lemma_serialize_list_push(l.drop_first(), x);
        assert(serialize_list(l.push(x)) =~= serialize_list(l) + be32(encode_utf8(x).len() as u32) + encode_utf8(x));
    }
}

/// The encoding of a non-empty tail starts with its first string.
proof fn lemma_tail_step(l: Seq<Seq<char>>, k: int)
    requires
        0 <= k < l.len(),
    ensures
        serialize_list(l.subrange(k, l.len() as int)) == be32(encode_utf8(l[k]).len() as u32) + encode_utf8(l[k])
            + serialize_list(l.subrange(k + 1, l.len() as int)),
{
    let rest = l.subrange(k, l.len() as int);
    assert(rest.drop_first() =~= l.subrange(k + 1, l.len() as int));
    assert(rest[0] == l[k]);
}

/// A non-empty list has a non-empty encoding, at least its 4-byte length.
proof fn lemma_nonempty(l: Seq<Seq<char>>)
    requires
        l.len() > 0,
    ensures
        serialize_list(l).len() >= 4,
{
}

/// The bytes of `serialize_list`.
pub fn list_to_bytes(l: &Vec<String>) -> (r: Vec<u8>)
    requires
        list_fits(string_views(l@)),
    ensures
        r@ == serialize_list(string_views(l@)),
{
    let mut out: Vec<u8> = Vec::new();
    let mut i: usize = 0;
    while i < l.len()
        invariant
            i <= l@.len(),
            list_fits(string_views(l@)),
            out@ == serialize_list(string_views(l@.subrange(0, i as int))),
        decreases l@.len() - i,
    {
        let b: &[u8] = l[i].as_str().as_bytes();
        assert(encode_utf8(string_views(l@)[i as int]).len() <= 0xFFFF_FFFF);
        let n: u32 = b.len() as u32;
        out.push((n >> 24u32) as u8);
        out.push((n >> 16u32) as u8);
        out.push((n >> 8u32) as u8);
        out.push(n as u8);
        extend_bytes(&mut out, b);
        proof {
            let prefix = string_views(l@.subrange(0, i as int));
            lemma_serialize_list_push(prefix, l@[i as int]@);
            assert(string_views(l@.subrange(0, i as int + 1)) =~= prefix.push(l@[i as int]@));
            assert(out@ =~= serialize_list(prefix) + be32(n) + encode_utf8(l@[i as int]@));
        }
        i += 1;
    }
    assert(l@.subrange(0, l@.len() as int) =~= l@);
    out
}

/// Reads `serialize_list` back; `None` on any other bytes.
pub fn list_from_bytes(bytes: &[u8]) -> (r: Option<Vec<String>>)
    ensures
        r matches Some(v) ==> serialize_list(string_views(v@)) == bytes@ && list_fits(string_views(v@)),
        forall|l: Seq<Seq<char>>|
            #![trigger serialize_list(l)]
            serialize_list(l) == bytes@ && list_fits(l) ==> (r is Some && string_views(r->Some_0@) == l),
{
    let mut out: Vec<String> = Vec::new();
    let mut pos: usize = 0;
    let len = bytes.len();
    proof {
        assert(string_views(out@) =~= Seq::<Seq<char>>::empty());
        assert(bytes@.subrange(0, 0) =~= Seq::<u8>::empty());
        assert forall|l: Seq<Seq<char>>| #![trigger serialize_list(l)] serialize_list(l) == bytes@ && list_fits(l) implies
            string_views(out@) == l.subrange(0, 0) && bytes@.subrange(0, len as int) == serialize_list(l.subrange(0, l.len() as int)) by {
            assert(l.subrange(0, l.len() as int) =~= l);
            assert(bytes@.subrange(0, len as int) =~= bytes@);
            assert(l.subrange(0, 0) =~= Seq::<Seq<char>>::empty());
        }
    }
    while pos < len
        invariant
            pos <= len == bytes@.len(),
            serialize_list(string_views(out@)) == bytes@.subrange(0, pos as int),
            list_fits(string_views(out@)),
            forall|l: Seq<Seq<char>>|
                #![trigger serialize_list(l)]
                serialize_list(l) == bytes@ && list_fits(l) ==> out@.len() <= l.len() && string_views(out@)
                    == l.subrange(0, out@.len() as int) && bytes@.subrange(pos as int, len as int)
                    == serialize_list(l.subrange(out@.len() as int, l.len() as int)),
        decreases len - pos,
    {
        let ghost k = out@.len() as int;
        let ghost before = out@;
        let ghost tail = bytes@.subrange(pos as int, len as int);
        proof {
            assert forall|l: Seq<Seq<char>>| #![trigger serialize_list(l)] serialize_list(l) == bytes@ && list_fits(l) implies
                k < l.len() && tail == be32(encode_utf8(l[k]).len() as u32) + encode_utf8(l[k])
                    + serialize_list(l.subrange(k + 1, l.len() as int)) by {
                if k >= l.len() {
                    assert(l.subrange(k, l.len() as int) =~= Seq::<Seq<char>>::empty());
                    assert(tail.len() > 0);
                }
                lemma_tail_step(l, k);
            }
        }
        if len - pos < 4 {
            return None;
        }
        let n32: u32 = ((bytes[pos] as u32) << 24u32) | ((bytes[pos + 1] as u32) << 16u32)
            | ((bytes[pos + 2] as u32) << 8u32) | (bytes[pos + 3] as u32);
        proof {
            lemma_from_be32_round_trip(bytes@[pos as int], bytes@[pos + 1], bytes@[pos + 2], bytes@[pos + 3]);
            assert(tail.subrange(0, 4) =~= be32(n32));
            assert forall|l: Seq<Seq<char>>| #![trigger serialize_list(l)] serialize_list(l) == bytes@ && list_fits(l) implies
                encode_utf8(l[k]).len() == n32 as nat by {
                let m = encode_utf8(l[k]).len() as u32;
                assert(encode_utf8(l[k]).len() <= 0xFFFF_FFFF);
                lemma_be32_round_trip(m);
                assert(tail.subrange(0, 4) =~= be32(m));
            }
        }
        let n: usize = n32 as usize;
        if n > len - pos - 4 {
            return None;
        }
        let start = pos + 4;
        let end = start + n;
        let piece = copy_range(bytes, start, end);
        let ghost pb = piece@;
        proof {
            assert(pb =~= tail.subrange(4, 4 + n as int));
            assert forall|l: Seq<Seq<char>>| #![trigger serialize_list(l)] serialize_list(l) == bytes@ && list_fits(l) implies
                pb == encode_utf8(l[k]) && bytes@.subrange(end as int, len as int) == serialize_list(l.subrange(k + 1, l.len() as int)) by {
                assert(tail.subrange(4, 4 + n as int) =~= encode_utf8(l[k]));
                assert(bytes@.subrange(end as int, len as int) =~= tail.subrange(4 + n as int, tail.len() as int));
                assert(tail.subrange(4 + n as int, tail.len() as int) =~= serialize_list(l.subrange(k + 1, l.len() as int)));
            }
        }
        let s = match crate::crypto::string_from_utf8(piece) {
            Some(s) => s,
            None => return None,
        };
        out.push(s);
        proof {
            lemma_serialize_list_push(string_views(before), s@);
            assert(string_views(out@) =~= string_views(before).push(s@));
            assert(encode_utf8(s@) == pb);
            assert(bytes@.subrange(0, end as int) =~= bytes@.subrange(0, pos as int) + be32(n32) + pb);
            assert forall|i: int| 0 <= i < string_views(out@).len() implies #[trigger] encode_utf8(string_views(out@)[i]).len()
                <= 0xFFFF_FFFF by {
                if i < before.len() {
                    assert(string_views(out@)[i] == string_views(before)[i]);
                }
            }
            assert forall|l: Seq<Seq<char>>| #![trigger serialize_list(l)] serialize_list(l) == bytes@ && list_fits(l) implies
                string_views(out@) == l.subrange(0, k + 1) by {
                assert(s@ == decode_utf8(encode_utf8(l[k])));
                assert(string_views(out@) =~= l.subrange(0, k + 1));
            }
        }
        pos = end;
    }
    proof {
        assert(bytes@.subrange(0, len as int) =~= bytes@);
        assert forall|l: Seq<Seq<char>>| #![trigger serialize_list(l)] serialize_list(l) == bytes@ && list_fits(l) implies
            string_views(out@) == l by {
            let rest = l.subrange(out@.len() as int, l.len() as int);
            if rest.len() > 0 {
                lemma_nonempty(rest);
            }
            assert(l.subrange(0, l.len() as int) =~= l);
        }
    }
    Some(out)
}


/// What a keychain file seals: the seed's bytes framed by their length, then
/// the saved passphrases.
pub open spec fn serialize_record(v: SeedView, saved: Seq<Seq<char>>) -> Seq<u8> {
    be32(serialize(v).len() as u32) + serialize(v) + serialize_list(saved)
}

/// The bytes of `serialize_record`.
pub fn record_to_bytes(seed: &Seed, saved: &Vec<String>) -> (r: Vec<u8>)
    requires
        list_fits(string_views(saved@)),
    ensures
        r@ == serialize_record(seed@, string_views(saved@)),
        valid_phrase(seed@.0),
        fits(seed@),
{
    let body = seed.to_bytes();
    let n: u32 = body.len() as u32;
    let mut out: Vec<u8> = Vec::new();
    out.push((n >> 24u32) as u8);
    out.push((n >> 16u32) as u8);
    out.push((n >> 8u32) as u8);
    out.push(n as u8);
    extend_bytes(&mut out, body.as_slice());
    let list = list_to_bytes(saved);
    extend_bytes(&mut out, list.as_slice());
    assert(out@ =~= serialize_record(seed@, string_views(saved@)));
    out
}

/// Reads `serialize_record` back; `None` on any other bytes.
pub fn record_from_bytes(bytes: &[u8]) -> (r: Option<(Seed, Vec<String>)>)
    ensures
        r matches Some((s, l)) ==> serialize_record(s@, string_views(l@)) == bytes@ && valid_phrase(s@.0)
            && fits(s@) && list_fits(string_views(l@)),
        forall|v: SeedView, l: Seq<Seq<char>>|
            #![trigger serialize_record(v, l)]
            serialize_record(v, l) == bytes@ && valid_phrase(v.0) && fits(v) && list_fits(l) ==> (r is Some
                && r->Some_0.0@ == v && string_views(r->Some_0.1@) == l),
{
    let len = bytes.len();
    if len < 4 {
        return None;
    }
    let n32: u32 = ((bytes[0] as u32) << 24u32) | ((bytes[1] as u32) << 16u32) | ((bytes[2] as u32) << 8u32) | (bytes[3] as u32);
    proof {
        lemma_from_be32_round_trip(bytes@[0], bytes@[1], bytes@[2], bytes@[3]);
        assert(bytes@.subrange(0, 4) =~= be32(n32));
        assert forall|v: SeedView, l: Seq<Seq<char>>| #![trigger serialize_record(v, l)]
            serialize_record(v, l) == bytes@ && fits(v) implies serialize(v).len() == n32 as nat by {
            let m = serialize(v).len() as u32;
            lemma_be32_round_trip(m);
            assert(serialize_record(v, l).subrange(0, 4) =~= be32(m));
        }
    }
    let n: usize = n32 as usize;
    if n > len - 4 {
        return None;
    }
    let body = copy_range(bytes, 4, 4 + n);
    let rest = copy_range(bytes, 4 + n, len);
    proof {
        assert forall|v: SeedView, l: Seq<Seq<char>>| #![trigger serialize_record(v, l)]
            serialize_record(v, l) == bytes@ && fits(v) implies body@ == serialize(v) && rest@ == serialize_list(l) by {
            assert(serialize_record(v, l).subrange(4, 4 + n as int) =~= serialize(v));
            assert(serialize_record(v, l).subrange(4 + n as int, len as int) =~= serialize_list(l));
        }
    }
    let seed = match Seed::from_bytes(body.as_slice()) {
        Some(s) => s,
        None => return None,
    };
    let saved = match list_from_bytes(rest.as_slice()) {
        Some(l) => l,
        None => return None,
    };
    proof {
        assert(serialize(seed@).len() == n);
        assert(bytes@ =~= be32(n32) + body@ + rest@);
        assert(serialize_record(seed@, string_views(saved@)) =~= bytes@);
    }
    Some((seed, saved))
}

} // verus!
