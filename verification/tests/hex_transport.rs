//! The hexadecimal transport codec and the middleware over the persistent
//! store.

use session_auth::handlers::{handle_request_db, Route, TokenAction};
use session_auth::hex::{hex_decode, hex_encode, hex_round_trip};
use session_auth::session::SessionCodec;

#[test]
fn hex_round_trips_every_byte_value() {
    let bytes: Vec<u8> = (0u8..=255).collect();
    let text = hex_encode(&bytes);
    assert_eq!(text.len(), 512);
    assert_eq!(hex_decode(&text), Some(bytes));
}

#[test]
fn hex_round_trip_helper_agrees() {
    let bytes = vec![0u8, 1, 127, 128, 255];
    assert_eq!(hex_round_trip(&bytes), Some(bytes));
}

#[test]
fn hex_encodes_known_values() {
    assert_eq!(hex_encode(&vec![]), "");
    assert_eq!(hex_encode(&vec![0u8]), "00");
    assert_eq!(hex_encode(&vec![0xbeu8, 0xef]), "beef");
}

#[test]
fn hex_decode_rejects_what_no_encoding_produces() {
    assert!(hex_decode("abc").is_none(), "odd length");
    assert!(hex_decode("zz").is_none(), "not a digit");
    assert!(hex_decode("BEEF").is_none(), "upper case is not produced");
    assert_eq!(hex_decode(""), Some(vec![]));
}

#[test]
fn middleware_over_db_login_failure_leaves_token_alone() {
    // An unbootstrapped in-memory database has no credential table, so the
    // login falls to the internal-error page and the identity stays anonymous.
    let codec = SessionCodec::new(vec![3u8; 32]);
    let (r, action) = handle_request_db(
        &codec,
        &String::from(":memory:"),
        "css",
        None,
        &Route::LoginPost {
            username: Some(String::from("alice")),
            password: Some(String::from("wonderland")),
        },
    );
    assert_eq!(r.status, 200);
    assert!(r.body.contains("internal server error"));
    assert!(matches!(action, TokenAction::Unchanged));
}

#[test]
fn middleware_over_db_logout_clears_a_real_token() {
    let codec = SessionCodec::new(vec![3u8; 32]);
    let token = codec
        .encode(&session_auth::session::Identity { username: String::from("alice") })
        .expect("sealing must succeed");
    let (r, action) = handle_request_db(
        &codec,
        &String::from(":memory:"),
        "css",
        Some(token),
        &Route::Logout,
    );
    assert_eq!(r.status, 302);
    assert_eq!(r.location.as_deref(), Some("/login"));
    assert!(matches!(action, TokenAction::Clear));
}
