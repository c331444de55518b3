//! The session codec: seals an identity into an opaque, tamper-evident token
//! and recovers it, under a symmetric 32-byte key fixed at configuration time.
//!
//! A token is `nonce ++ sealed`, where `nonce` is 12 fresh random bytes and
//! `sealed` is the ChaCha20-Poly1305 sealing of the identity's UTF-8 bytes
//! under the key and that nonce. Decoding is deterministic in the key and the
//! token; any failure (short token, failed integrity check, malformed UTF-8)
//! yields no identity, never an error.

use vstd::prelude::*;
use vstd::slice::slice_subrange;
use chacha20poly1305::aead::{Aead, Generate, KeyInit};

verus! {

/// The authenticated username associated with a request's session.
pub struct Identity {
    pub username: String,
}

impl View for Identity {
    type V = Seq<char>;

    open spec fn view(&self) -> Seq<char> {
        self.username@
    }
}

/// The ChaCha20-Poly1305 sealing of `plaintext` under `key` and `nonce`:
/// ciphertext followed by the 16-byte authentication tag.
pub uninterp spec fn sealed_bytes(key: Seq<u8>, nonce: Seq<u8>, plaintext: Seq<u8>) -> Seq<u8>;

/// The ChaCha20-Poly1305 opening of `sealed` under `key` and `nonce`: the
/// plaintext when the tag verifies, nothing otherwise.
pub uninterp spec fn opened_bytes(key: Seq<u8>, nonce: Seq<u8>, sealed: Seq<u8>) -> Option<Seq<u8>>;

/// The UTF-8 encoding of a character sequence.
pub uninterp spec fn utf8_of(s: Seq<char>) -> Seq<u8>;

/// The characters that a byte sequence decodes to as UTF-8, if it is valid UTF-8.
pub uninterp spec fn chars_of_utf8(b: Seq<u8>) -> Option<Seq<char>>;

/// Relies on chacha20poly1305::ChaCha20Poly1305::encrypt: the RFC 8439 AEAD
/// seal, a deterministic function of key, nonce and plaintext, which decrypt
/// under the same key and nonce inverts.
#[verifier::external_body]
fn aead_seal(key: &[u8], nonce: &[u8], plaintext: &[u8]) -> (r: Option<Vec<u8>>)
    requires
        key@.len() == 32,
        nonce@.len() == 12,
    ensures
        r matches Some(c) ==> c@ == sealed_bytes(key@, nonce@, plaintext@)
            && opened_bytes(key@, nonce@, c@) == Some(plaintext@),
{
    let key = match chacha20poly1305::Key::try_from(key) {
        Ok(k) => k,
        Err(_) => return None,
    };
    let nonce = match chacha20poly1305::Nonce::try_from(nonce) {
        Ok(n) => n,
        Err(_) => return None,
    };
    chacha20poly1305::ChaCha20Poly1305::new(&key).encrypt(&nonce, plaintext).ok()
}

/// Relies on chacha20poly1305::ChaCha20Poly1305::decrypt: deterministic in key,
/// nonce and input; returns the plaintext exactly when the tag verifies.
#[verifier::external_body]
fn aead_open(key: &[u8], nonce: &[u8], sealed: &[u8]) -> (r: Option<Vec<u8>>)
    requires
        key@.len() == 32,
        nonce@.len() == 12,
    ensures
        r matches Some(p) ==> opened_bytes(key@, nonce@, sealed@) == Some(p@),
        r is None ==> opened_bytes(key@, nonce@, sealed@) is None,
{
    let key = match chacha20poly1305::Key::try_from(key) {
        Ok(k) => k,
        Err(_) => return None,
    };
    let nonce = match chacha20poly1305::Nonce::try_from(nonce) {
        Ok(n) => n,
        Err(_) => return None,
    };
    chacha20poly1305::ChaCha20Poly1305::new(&key).decrypt(&nonce, sealed).ok()
}

/// Relies on crypto_common::Generate::try_generate: 12 bytes from the system's
/// cryptographically secure random source; nothing is assumed of their values.
#[verifier::external_body]
fn fresh_nonce() -> (r: Option<Vec<u8>>)
    ensures
        r matches Some(n) ==> n@.len() == 12,
{
    match chacha20poly1305::Nonce::try_generate() {
        Ok(n) => Some(n.as_slice().to_vec()),
        Err(_) => None,
    }
}

/// Relies on str::as_bytes: the UTF-8 encoding of the string, which decodes
/// back to the same characters.
#[verifier::external_body]
fn str_utf8<'a>(s: &'a str) -> (r: &'a [u8])
    ensures
        r@ == utf8_of(s@),
        chars_of_utf8(r@) == Some(s@),
{
    s.as_bytes()
}

/// Relies on String::from_utf8: succeeds with the decoded characters exactly
/// when the bytes are valid UTF-8.
#[verifier::external_body]
fn utf8_string(b: Vec<u8>) -> (r: Option<String>)
    ensures
        r matches Some(s) ==> chars_of_utf8(b@) == Some(s@),
        r is None ==> chars_of_utf8(b@) is None,
{
    String::from_utf8(b).ok()
}

/// The identity a token decodes to under `key`: the token carries a 12-byte
/// nonce followed by the sealed identity bytes; a token that is too short,
/// fails the integrity check, or does not hold UTF-8 decodes to nothing.
pub open spec fn decoded_identity(key: Seq<u8>, token: Seq<u8>) -> Option<Seq<char>> {
    if token.len() < 12 {
        None
    } else {
        match opened_bytes(key, token.subrange(0, 12), token.subrange(12, token.len() as int)) {
            Some(p) => chars_of_utf8(p),
            None => None,
        }
    }
}

/// Encrypts and decrypts identities with a fixed 32-byte key.
pub struct SessionCodec {
    pub key: Vec<u8>,
}

impl SessionCodec {
    /// The key has the length the cipher demands.
    pub open spec fn wf(&self) -> bool {
        self.key@.len() == 32
    }

    /// A codec over a 32-byte key.
    pub fn new(key: Vec<u8>) -> (r: SessionCodec)
        requires
            key@.len() == 32,
        ensures
            r.wf(),
            r.key@ == key@,
    {
        SessionCodec { key }
    }

    /// Seals `identity` into a fresh token. Each call may draw a fresh nonce,
    /// so two tokens for one identity need not be equal; but every token
    /// returned decodes, under this codec's key, back to `identity`. Returns
    /// nothing when the random source or the cipher fails.
    pub fn encode(&self, identity: &Identity) -> (r: Option<Vec<u8>>)
        requires
            self.wf(),
        ensures
            r matches Some(t) ==> decoded_identity(self.key@, t@) == Some(identity@),
    {
        let nonce = match fresh_nonce() {
            Some(n) => n,
            None => {
                return None;
            },
        };
        let plaintext = str_utf8(identity.username.as_str());
        let sealed = match aead_seal(self.key.as_slice(), nonce.as_slice(), plaintext) {
            Some(c) => c,
            None => {
                return None;
            },
        };
        let mut token = nonce;
        let mut sealed = sealed;
        token.append(&mut sealed);
        proof {
            assert(token@.len() >= 12);
            assert(token@.subrange(0, 12) =~= nonce@);
            assert(token@.subrange(12, token@.len() as int) =~= sealed_bytes(
                self.key@,
                nonce@,
                utf8_of(identity@),
            ));
        }
        Some(token)
    }

    /// Recovers the identity a token seals, or nothing: a missing or damaged
    /// token degrades to the anonymous case and never to an error.
    pub fn decode(&self, token: &Vec<u8>) -> (r: Option<Identity>)
        requires
            self.wf(),
        ensures
            r matches Some(id) ==> decoded_identity(self.key@, token@) == Some(id@),
            r is None ==> decoded_identity(self.key@, token@) is None,
    {
        if token.len() < 12 {
            return None;
        }
        let nonce = slice_subrange(token.as_slice(), 0, 12);
        let sealed = slice_subrange(token.as_slice(), 12, token.len());
        let plain = match aead_open(self.key.as_slice(), nonce, sealed) {
            Some(p) => p,
            None => {
                return None;
            },
        };
        match utf8_string(plain) {
            Some(username) => Some(Identity { username }),
            None => None,
        }
    }

    /// The round-trip law: decoding a token that `encode` minted yields the
    /// identity that was encoded; when encoding fails, nothing is decoded.
    pub fn round_trip(&self, identity: &Identity) -> (r: Option<Identity>)
        requires
            self.wf(),
        ensures
            r matches Some(out) ==> out@ == identity@,
    {
        match self.encode(identity) {
            Some(token) => {
                let out = self.decode(&token);
                out
            },
            None => None,
        }
    }
}

} // verus!
