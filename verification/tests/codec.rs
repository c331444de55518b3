//! The session codec: round trips, tamper evidence, and degradation to the
//! anonymous case.

use session_auth::session::{Identity, SessionCodec};

fn codec() -> SessionCodec {
    SessionCodec::new(vec![9u8; 32])
}

fn encode(codec: &SessionCodec, name: &str) -> Vec<u8> {
    codec
        .encode(&Identity { username: String::from(name) })
        .expect("sealing must succeed with a working random source")
}

#[test]
fn round_trip_returns_the_identity() {
    let codec = codec();
    let token = encode(&codec, "alice");
    let back = codec.decode(&token).expect("a fresh token must decode");
    assert_eq!(back.username, "alice");
}

#[test]
fn round_trip_helper_agrees() {
    let codec = codec();
    let back = codec.round_trip(&Identity { username: String::from("white rabbit") });
    assert_eq!(back.map(|i| i.username), Some(String::from("white rabbit")));
}

#[test]
fn round_trip_of_empty_identity() {
    let codec = codec();
    let token = encode(&codec, "");
    let back = codec.decode(&token).expect("a fresh token must decode");
    assert_eq!(back.username, "");
}

#[test]
fn two_encodings_need_not_be_equal_but_both_decode() {
    let codec = codec();
    let t1 = encode(&codec, "alice");
    let t2 = encode(&codec, "alice");
    assert_eq!(codec.decode(&t1).unwrap().username, "alice");
    assert_eq!(codec.decode(&t2).unwrap().username, "alice");
    // With a fresh 12-byte random nonce per call, equal tokens would mean a
    // nonce collision; astronomically unlikely, and worth noticing.
    assert_ne!(t1, t2);
}

#[test]
fn flipping_any_bit_of_a_token_yields_no_identity() {
    let codec = codec();
    let token = encode(&codec, "alice");
    for i in 0..token.len() {
        for bit in 0..8 {
            let mut tampered = token.clone();
            tampered[i] ^= 1u8 << bit;
            assert!(
                codec.decode(&tampered).is_none(),
                "bit {} of byte {} flipped and the token still decoded",
                bit,
                i
            );
        }
    }
}

#[test]
fn truncated_and_empty_tokens_yield_no_identity() {
    let codec = codec();
    let token = encode(&codec, "alice");
    assert!(codec.decode(&vec![]).is_none());
    assert!(codec.decode(&token[..11].to_vec()).is_none());
    assert!(codec.decode(&token[..token.len() - 1].to_vec()).is_none());
}

#[test]
fn a_token_does_not_decode_under_another_key() {
    let first = codec();
    let second = SessionCodec::new(vec![8u8; 32]);
    let token = encode(&first, "alice");
    assert!(second.decode(&token).is_none());
}
