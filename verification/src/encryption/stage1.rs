use vstd::prelude::*;
use vstd::slice::slice_subrange;
use aes_gcm::aead::{Aead, AeadCore, KeyInit, OsRng};
use aes_gcm::{Aes256Gcm, Nonce};
use crate::encryption::error::EncryptionError;
use crate::encryption::types::{EncryptedData, Plaintext};

verus! {

/// Byte length of an AES-256-GCM nonce.
pub const AES_GCM_NONCE_LEN: usize = 12;

/// Byte length of an AES-256-GCM authentication tag.
pub const AES_GCM_TAG_LEN: usize = 16;

/// Largest message AES-GCM accepts for encryption (2^36 bytes).
pub const AES_GCM_MSG_MAX: u64 = 68719476736;

/// The ciphertext-with-tag that AES-256-GCM produces for a key, nonce and
/// message; encryption is a deterministic function of those three inputs.
pub uninterp spec fn aes_gcm_seal(key: Seq<u8>, nonce: Seq<u8>, msg: Seq<u8>) -> Seq<u8>;

/// The outcome of AES-256-GCM decryption for a key, nonce and
/// ciphertext-with-tag; decryption is a deterministic function of those three
/// inputs, and `None` is the authentication failure.
pub uninterp spec fn aes_gcm_open(key: Seq<u8>, nonce: Seq<u8>, ct: Seq<u8>) -> Option<Seq<u8>>;

/// Relies on `aes_gcm::Aes256Gcm`: `Aead::encrypt` computes a deterministic
/// function of key, nonce and message (named `aes_gcm_seal`), appending the
/// 16-byte tag; it succeeds exactly when the message is at most 2^36 bytes,
/// and `Aead::decrypt` recovers exactly the message from its output.
#[verifier::external_body]
fn aes_gcm_encrypt(key: &[u8; 32], nonce: &[u8], msg: &[u8]) -> (r: Option<Vec<u8>>)
    requires
        nonce@.len() == AES_GCM_NONCE_LEN,
    ensures
        r matches Some(ct) ==> ct@ == aes_gcm_seal(key@, nonce@, msg@),
        r matches Some(ct) ==> ct@.len() == msg@.len() + AES_GCM_TAG_LEN,
        r matches Some(ct) ==> aes_gcm_open(key@, nonce@, ct@) == Some(msg@),
        r is Some <==> msg@.len() <= AES_GCM_MSG_MAX,
{
    let cipher = Aes256Gcm::new_from_slice(key).unwrap();
    cipher.encrypt(Nonce::from_slice(nonce), msg).ok()
}

/// Relies on `aes_gcm::Aes256Gcm`: `Aead::decrypt` computes a deterministic
/// function of key, nonce and ciphertext, named `aes_gcm_open`; it rejects any
/// ciphertext whose authentication tag does not verify.
#[verifier::external_body]
fn aes_gcm_decrypt(key: &[u8; 32], nonce: &[u8], ct: &[u8]) -> (r: Option<Vec<u8>>)
    requires
        nonce@.len() == AES_GCM_NONCE_LEN,
    ensures
        r matches Some(p) ==> aes_gcm_open(key@, nonce@, ct@) == Some(p@),
        r is None ==> aes_gcm_open(key@, nonce@, ct@) is None,
{
    let cipher = Aes256Gcm::new_from_slice(key).unwrap();
    cipher.decrypt(Nonce::from_slice(nonce), ct).ok()
}

/// Relies on `Aes256Gcm::generate_nonce` with `aes_gcm::aead::OsRng`: returns
/// 12 bytes drawn from the operating system's cryptographically secure random
/// generator. Nothing is promised of the values.
#[verifier::external_body]
fn aes_gcm_fresh_nonce() -> (r: Vec<u8>)
    ensures
        r@.len() == AES_GCM_NONCE_LEN,
{
    Aes256Gcm::generate_nonce(&mut OsRng).to_vec()
}

/// A stage-1 bundle: the nonce followed by the sealed message.
pub open spec fn stage1_seal(key: Seq<u8>, nonce: Seq<u8>, msg: Seq<u8>) -> Seq<u8> {
    nonce + aes_gcm_seal(key, nonce, msg)
}

/// The message a stage-1 bundle authenticates under `key`, if any: the leading
/// 12 bytes are the nonce, the rest is the sealed message.
pub open spec fn stage1_open(key: Seq<u8>, data: Seq<u8>) -> Option<Seq<u8>> {
    if data.len() < AES_GCM_NONCE_LEN {
        None
    } else {
        aes_gcm_open(key, data.take(AES_GCM_NONCE_LEN as int), data.skip(AES_GCM_NONCE_LEN as int))
    }
}

/// First encryption stage: AES-256-GCM under a fixed 256-bit key.
#[derive(Debug, Clone, Copy)]
pub struct Stage1Encryptor {
    key: [u8; 32],
}

impl Stage1Encryptor {
    /// The stage's key.
    pub closed spec fn key_spec(&self) -> Seq<u8> {
        self.key@
    }

    pub fn new(key: [u8; 32]) -> (r: Self)
        ensures
            r.key_spec() == key@,
    {
        Stage1Encryptor { key }
    }

    /// Seals `data` under a nonce drawn fresh from the system's random
    /// generator and returns the nonce-prefixed bundle.
    pub fn encrypt(&self, data: &Plaintext) -> (r: Result<EncryptedData, EncryptionError>)
        ensures
            r matches Ok(e) ==> stage1_open(self.key_spec(), e.0@) == Some(data.0@),
            r matches Ok(e) ==> exists|n: Seq<u8>|
                n.len() == AES_GCM_NONCE_LEN && e.0@ == #[trigger] stage1_seal(self.key_spec(), n, data.0@),
            r matches Ok(e) ==> e.0@.len() == data.0@.len() + AES_GCM_NONCE_LEN + AES_GCM_TAG_LEN,
            r is Ok <==> data.0@.len() <= AES_GCM_MSG_MAX,
            r matches Err(e) ==> e is Stage1,
    {
        let nonce = aes_gcm_fresh_nonce();
        let ghost n: Seq<u8> = nonce@;
        match aes_gcm_encrypt(&self.key, nonce.as_slice(), data.0.as_slice()) {
            Some(ct) => {
                let ghost c: Seq<u8> = ct@;
                let mut out = nonce;
                out.extend_from_slice(ct.as_slice());
                proof {
                    assert(out@ =~= n + c);
                    assert(out@.take(AES_GCM_NONCE_LEN as int) =~= n);
                    assert(out@.skip(AES_GCM_NONCE_LEN as int) =~= c);
                    assert(out@ == stage1_seal(self.key_spec(), n, data.0@));
                }
                Ok(EncryptedData(out))
            },
            None => Err(EncryptionError::Stage1("AES-256-GCM rejected the message".to_owned())),
        }
    }

    /// Splits the nonce off a stage-1 bundle and opens the sealed message;
    /// fails on a truncated bundle or an authentication mismatch.
    pub fn decrypt(&self, data: &EncryptedData) -> (r: Result<Plaintext, EncryptionError>)
        ensures
            r matches Ok(p) ==> stage1_open(self.key_spec(), data.0@) == Some(p.0@),
            r is Err ==> stage1_open(self.key_spec(), data.0@) is None,
            stage1_open(self.key_spec(), data.0@) matches Some(m) ==> r matches Ok(p) && p.0@ == m,
            r matches Err(e) ==> e is Stage1,
    {
        if data.0.len() < AES_GCM_NONCE_LEN {
            return Err(EncryptionError::Stage1("bundle shorter than a nonce".to_owned()));
        }
        let nonce = slice_subrange(data.0.as_slice(), 0, AES_GCM_NONCE_LEN);
        let ct = slice_subrange(data.0.as_slice(), AES_GCM_NONCE_LEN, data.0.len());
        proof {
            assert(nonce@ =~= data.0@.take(AES_GCM_NONCE_LEN as int));
            assert(ct@ =~= data.0@.skip(AES_GCM_NONCE_LEN as int));
        }
        match aes_gcm_decrypt(&self.key, nonce, ct) {
            Some(p) => Ok(Plaintext(p)),
            None => Err(EncryptionError::Stage1("authentication failed".to_owned())),
        }
    }
}

} // verus!
