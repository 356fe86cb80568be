use vstd::prelude::*;
use vstd::slice::slice_subrange;
use chacha20poly1305::aead::{Aead, AeadCore, KeyInit, OsRng};
use chacha20poly1305::{ChaCha20Poly1305, Nonce};
use crate::encryption::error::EncryptionError;
use crate::encryption::types::EncryptedData;

verus! {

/// Byte length of a ChaCha20-Poly1305 nonce.
pub const CHACHA_NONCE_LEN: usize = 12;

/// Byte length of a Poly1305 authentication tag.
pub const CHACHA_TAG_LEN: usize = 16;

/// Largest message ChaCha20-Poly1305 accepts for encryption: one byte short
/// of 64 * (2^32 - 1), the keystream-block bound its cipher enforces.
pub const CHACHA_MSG_MAX: u64 = 274877906879;

/// The ciphertext-with-tag that ChaCha20-Poly1305 produces for a key, nonce
/// and message; encryption is a deterministic function of those three inputs.
pub uninterp spec fn chacha_seal(key: Seq<u8>, nonce: Seq<u8>, msg: Seq<u8>) -> Seq<u8>;

/// The outcome of ChaCha20-Poly1305 decryption for a key, nonce and
/// ciphertext-with-tag; decryption is a deterministic function of those three
/// inputs, and `None` is the authentication failure.
pub uninterp spec fn chacha_open(key: Seq<u8>, nonce: Seq<u8>, ct: Seq<u8>) -> Option<Seq<u8>>;

/// Relies on `chacha20poly1305::ChaCha20Poly1305`: `Aead::encrypt` computes a
/// deterministic function of key, nonce and message (named `chacha_seal`),
/// appending the 16-byte tag; it succeeds exactly when the message stays
/// under its keystream-block bound, and `Aead::decrypt` recovers exactly the
/// message from its output.
#[verifier::external_body]
fn chacha_encrypt(key: &[u8; 32], nonce: &[u8], msg: &[u8]) -> (r: Option<Vec<u8>>)
    requires
        nonce@.len() == CHACHA_NONCE_LEN,
    ensures
        r matches Some(ct) ==> ct@ == chacha_seal(key@, nonce@, msg@),
        r matches Some(ct) ==> ct@.len() == msg@.len() + CHACHA_TAG_LEN,
        r matches Some(ct) ==> chacha_open(key@, nonce@, ct@) == Some(msg@),
        r is Some <==> msg@.len() <= CHACHA_MSG_MAX,
{
    let cipher = ChaCha20Poly1305::new_from_slice(key).unwrap();
    cipher.encrypt(Nonce::from_slice(nonce), msg).ok()
}

/// Relies on `chacha20poly1305::ChaCha20Poly1305`: `Aead::decrypt` computes a
/// deterministic function of key, nonce and ciphertext, named `chacha_open`;
/// it rejects any ciphertext whose authentication tag does not verify.
#[verifier::external_body]
fn chacha_decrypt(key: &[u8; 32], nonce: &[u8], ct: &[u8]) -> (r: Option<Vec<u8>>)
    requires
        nonce@.len() == CHACHA_NONCE_LEN,
    ensures
        r matches Some(p) ==> chacha_open(key@, nonce@, ct@) == Some(p@),
        r is None ==> chacha_open(key@, nonce@, ct@) is None,
{
    let cipher = ChaCha20Poly1305::new_from_slice(key).unwrap();
    cipher.decrypt(Nonce::from_slice(nonce), ct).ok()
}

/// Relies on `ChaCha20Poly1305::generate_nonce` with
/// `chacha20poly1305::aead::OsRng`: returns 12 bytes drawn from the operating
/// system's cryptographically secure random generator. Nothing is promised of
/// the values.
#[verifier::external_body]
fn chacha_fresh_nonce() -> (r: Vec<u8>)
    ensures
        r@.len() == CHACHA_NONCE_LEN,
{
    ChaCha20Poly1305::generate_nonce(&mut OsRng).to_vec()
}

/// A stage-2 bundle: the nonce followed by the sealed message.
pub open spec fn stage2_seal(key: Seq<u8>, nonce: Seq<u8>, msg: Seq<u8>) -> Seq<u8> {
    nonce + chacha_seal(key, nonce, msg)
}

/// The message a stage-2 bundle authenticates under `key`, if any: the leading
/// 12 bytes are the nonce, the rest is the sealed message.
pub open spec fn stage2_open(key: Seq<u8>, data: Seq<u8>) -> Option<Seq<u8>> {
    if data.len() < CHACHA_NONCE_LEN {
        None
    } else {
        chacha_open(key, data.take(CHACHA_NONCE_LEN as int), data.skip(CHACHA_NONCE_LEN as int))
    }
}

/// Second encryption stage: ChaCha20-Poly1305 under a fixed 256-bit key, a
/// cipher family independent of stage 1 so one implementation flaw cannot
/// defeat both layers.
#[derive(Debug, Clone, Copy)]
pub struct Stage2Encryptor {
    key: [u8; 32],
}

impl Stage2Encryptor {
    /// The stage's key.
    pub closed spec fn key_spec(&self) -> Seq<u8> {
        self.key@
    }

    pub fn new(key: [u8; 32]) -> (r: Self)
        ensures
            r.key_spec() == key@,
    {
        Stage2Encryptor { key }
    }

    /// Seals `data` under a nonce drawn fresh from the system's random
    /// generator and returns the nonce-prefixed bundle.
    pub fn encrypt(&self, data: &EncryptedData) -> (r: Result<EncryptedData, EncryptionError>)
        ensures
            r matches Ok(e) ==> stage2_open(self.key_spec(), e.0@) == Some(data.0@),
            r matches Ok(e) ==> exists|n: Seq<u8>|
                n.len() == CHACHA_NONCE_LEN && e.0@ == #[trigger] stage2_seal(self.key_spec(), n, data.0@),
            r matches Ok(e) ==> e.0@.len() == data.0@.len() + CHACHA_NONCE_LEN + CHACHA_TAG_LEN,
            r is Ok <==> data.0@.len() <= CHACHA_MSG_MAX,
            r matches Err(e) ==> e is Stage2,
    {
        let nonce = chacha_fresh_nonce();
        let ghost n: Seq<u8> = nonce@;
        match chacha_encrypt(&self.key, nonce.as_slice(), data.0.as_slice()) {
            Some(ct) => {
                let ghost c: Seq<u8> = ct@;
                let mut out = nonce;
                out.extend_from_slice(ct.as_slice());
                proof {
                    assert(out@ =~= n + c);
                    assert(out@.take(CHACHA_NONCE_LEN as int) =~= n);
                    assert(out@.skip(CHACHA_NONCE_LEN as int) =~= c);
                    assert(out@ == stage2_seal(self.key_spec(), n, data.0@));
                }
                Ok(EncryptedData(out))
            },
            None => Err(EncryptionError::Stage2("ChaCha20-Poly1305 rejected the message".to_owned())),
        }
    }

    /// Splits the nonce off a stage-2 bundle and opens the sealed message;
    /// fails on a truncated bundle or an authentication mismatch.
    pub fn decrypt(&self, data: &EncryptedData) -> (r: Result<EncryptedData, EncryptionError>)
        ensures
            r matches Ok(p) ==> stage2_open(self.key_spec(), data.0@) == Some(p.0@),
            r is Err ==> stage2_open(self.key_spec(), data.0@) is None,
            stage2_open(self.key_spec(), data.0@) matches Some(m) ==> r matches Ok(p) && p.0@ == m,
            r matches Err(e) ==> e is Stage2,
    {
        if data.0.len() < CHACHA_NONCE_LEN {
            return Err(EncryptionError::Stage2("bundle shorter than a nonce".to_owned()));
        }
        let nonce = slice_subrange(data.0.as_slice(), 0, CHACHA_NONCE_LEN);
        let ct = slice_subrange(data.0.as_slice(), CHACHA_NONCE_LEN, data.0.len());
        proof {
            assert(nonce@ =~= data.0@.take(CHACHA_NONCE_LEN as int));
            assert(ct@ =~= data.0@.skip(CHACHA_NONCE_LEN as int));
        }
        match chacha_decrypt(&self.key, nonce, ct) {
            Some(p) => Ok(EncryptedData(p)),
            None => Err(EncryptionError::Stage2("authentication failed".to_owned())),
        }
    }
}

} // verus!
