use bitcoin::hashes::hmac::{Hmac, HmacEngine};
use bitcoin::hashes::{sha512, Hash as HashTrait, HashEngine};
use keechain::entropy::{entropy, mix, HostEntropy};
use keechain::types::WordCount;

fn host() -> HostEntropy {
    HostEntropy::Introspected { dynamic_events: vec![1, 2, 3], static_events: b"host".to_vec() }
}

#[test]
fn mix_lengths_follow_the_word_count() {
    let a = [1u8; 32];
    for (wc, len) in [(WordCount::W12, 16), (WordCount::W18, 24), (WordCount::W24, 32)] {
        assert_eq!(mix(wc, &a, &a, &a, &host(), None).len(), len);
        assert_eq!(mix(wc, &a, &a, &a, &host(), Some(&[9, 9])).len(), len);
        let t = HostEntropy::TimestampOnly { nanos: 42 };
        assert_eq!(mix(wc, &a, &a, &a, &t, None).len(), len);
    }
}

#[test]
fn entropy_lengths_follow_the_word_count() {
    assert_eq!(entropy(WordCount::W12, &host(), None).len(), 16);
    assert_eq!(entropy(WordCount::W18, &host(), None).len(), 24);
    assert_eq!(entropy(WordCount::W24, &host(), Some(&[1, 2, 3, 4, 5, 6])).len(), 32);
}

#[test]
fn mix_is_a_prefix_of_one_digest() {
    let a = [5u8; 32];
    let short = mix(WordCount::W12, &a, &a, &a, &host(), None);
    let long = mix(WordCount::W24, &a, &a, &a, &host(), None);
    assert_eq!(&long[..16], &short[..]);
    assert_eq!(mix(WordCount::W12, &a, &a, &a, &host(), None), short);
}

#[test]
fn every_source_changes_the_result() {
    let a = [5u8; 32];
    let b = [6u8; 32];
    let base = mix(WordCount::W24, &a, &a, &a, &host(), None);
    assert_ne!(mix(WordCount::W24, &b, &a, &a, &host(), None), base);
    assert_ne!(mix(WordCount::W24, &a, &b, &a, &host(), None), base);
    assert_ne!(mix(WordCount::W24, &a, &a, &b, &host(), None), base);
    assert_ne!(mix(WordCount::W24, &a, &a, &a, &host(), Some(&[0])), base);
    let t = HostEntropy::TimestampOnly { nanos: 1 };
    assert_ne!(mix(WordCount::W24, &a, &a, &a, &t, None), base);
}

#[test]
fn mix_matches_hmac_sha512() {
    // HMAC-SHA512 keyed with the label over the concatenated sources.
    let a = [1u8; 32];
    let mut e = HmacEngine::<sha512::Hash>::new(b"keechain-entropy");
    e.input(&a);
    e.input(&a);
    e.input(&a);
    e.input(&42u128.to_be_bytes());
    e.input(&[7]);
    let expected = Hmac::<sha512::Hash>::from_engine(e).into_inner();
    let t = HostEntropy::TimestampOnly { nanos: 42 };
    assert_eq!(mix(WordCount::W24, &a, &a, &a, &t, Some(&[7])), expected[..32].to_vec());
}
