use vstd::prelude::*;
use crate::encryption::error::EncryptionError;
use crate::encryption::stage1::{aes_gcm_open, aes_gcm_seal, stage1_open, stage1_seal, Stage1Encryptor, AES_GCM_MSG_MAX};
use crate::encryption::stage2::{chacha_open, chacha_seal, stage2_open, stage2_seal, Stage2Encryptor};
use crate::encryption::types::{EncryptedData, Plaintext};

verus! {

/// Largest plaintext the two-stage pipeline promises to encrypt: the stage-1
/// bound, whose 28-byte expansion still fits well under the stage-2 bound.
pub const DUAL_MSG_MAX: u64 = AES_GCM_MSG_MAX;

/// Bytes a dual bundle adds to its plaintext: two nonces and two tags.
pub const DUAL_OVERHEAD: usize = 56;

/// Tuning knobs of the encryption layer.
#[derive(Debug, Clone)]
pub struct EncryptionConfig {
    pub key_rotation_hours: u64,
}

/// A dual bundle: the plaintext sealed by stage 1, and that bundle sealed
/// again by stage 2.
pub open spec fn dual_seal(
    key1: Seq<u8>,
    key2: Seq<u8>,
    n1: Seq<u8>,
    n2: Seq<u8>,
    msg: Seq<u8>,
) -> Seq<u8> {
    stage2_seal(key2, n2, stage1_seal(key1, n1, msg))
}

/// The plaintext a dual bundle authenticates, if any: stage 2 is reversed
/// first, then stage 1 — the order is part of the contract.
pub open spec fn dual_open(key1: Seq<u8>, key2: Seq<u8>, data: Seq<u8>) -> Option<Seq<u8>> {
    match stage2_open(key2, data) {
        Some(inner) => stage1_open(key1, inner),
        None => None,
    }
}

/// Round trip, stated at the model: whenever each stage's opening inverts its
/// sealing at the given nonces — the fact every successful `encrypt` call
/// establishes for its own nonces — opening the dual bundle built from a
/// plaintext yields exactly that plaintext, stage 2 first, then stage 1.
pub proof fn lemma_dual_round_trip(
    key1: Seq<u8>,
    key2: Seq<u8>,
    n1: Seq<u8>,
    n2: Seq<u8>,
    msg: Seq<u8>,
)
    requires
        n1.len() == 12,
        n2.len() == 12,
        aes_gcm_open(key1, n1, aes_gcm_seal(key1, n1, msg)) == Some(msg),
        chacha_open(key2, n2, chacha_seal(key2, n2, stage1_seal(key1, n1, msg))) == Some(
            stage1_seal(key1, n1, msg),
        ),
    ensures
        dual_open(key1, key2, dual_seal(key1, key2, n1, n2, msg)) == Some(msg),
{
    let inner = stage1_seal(key1, n1, msg);
    let outer = dual_seal(key1, key2, n1, n2, msg);
    assert(outer.take(12) =~= n2);
    assert(outer.skip(12) =~= chacha_seal(key2, n2, inner));
    assert(stage2_open(key2, outer) == Some(inner));
    assert(inner.take(12) =~= n1);
    assert(inner.skip(12) =~= aes_gcm_seal(key1, n1, msg));
    assert(stage1_open(key1, inner) == Some(msg));
}

/// The two-stage pipeline with both keys fixed at construction.
#[derive(Debug, Clone, Copy)]
pub struct DualEncryptionService {
    stage1: Stage1Encryptor,
    stage2: Stage2Encryptor,
}

impl DualEncryptionService {
    /// The stage-1 (AES-256-GCM) key.
    pub closed spec fn key1(&self) -> Seq<u8> {
        self.stage1.key_spec()
    }

    /// The stage-2 (ChaCha20-Poly1305) key.
    pub closed spec fn key2(&self) -> Seq<u8> {
        self.stage2.key_spec()
    }

    /// Builds the pipeline. The keys are fixed constants here; a production
    /// deployment must source them from a secrets provider and rotate them on
    /// the configured schedule.
    pub fn new(_config: &EncryptionConfig) -> (r: Result<Self, EncryptionError>)
        ensures
            r is Ok,
    {
        let stage1_key: [u8; 32] = [0u8; 32];
        let stage2_key: [u8; 32] = [1u8; 32];
        let stage1 = Stage1Encryptor::new(stage1_key);
        let stage2 = Stage2Encryptor::new(stage2_key);
        Ok(DualEncryptionService { stage1, stage2 })
    }

    /// Applies stage 1 and then stage 2, each under a fresh random nonce. The
    /// bundle that comes back opens to exactly the plaintext that went in.
    pub fn encrypt(&self, plaintext: Plaintext) -> (r: Result<EncryptedData, EncryptionError>)
        ensures
            r matches Ok(e) ==> dual_open(self.key1(), self.key2(), e.0@) == Some(plaintext.0@),
            r matches Ok(e) ==> exists|n1: Seq<u8>, n2: Seq<u8>|
                n1.len() == 12 && n2.len() == 12 && e.0@ == #[trigger] dual_seal(
                    self.key1(),
                    self.key2(),
                    n1,
                    n2,
                    plaintext.0@,
                ),
            r matches Ok(e) ==> e.0@.len() == plaintext.0@.len() + DUAL_OVERHEAD,
            r is Ok <==> plaintext.0@.len() <= DUAL_MSG_MAX,
            r matches Err(e) ==> e is Stage1,
    {
        let stage1_encrypted = match self.stage1.encrypt(&plaintext) {
            Ok(v) => v,
            Err(e) => return Err(e),
        };
        let stage2_encrypted = match self.stage2.encrypt(&stage1_encrypted) {
            Ok(v) => v,
            Err(e) => return Err(e),
        };
        proof {
            let n1 = choose|n: Seq<u8>|
                n.len() == 12 && stage1_encrypted.0@ == #[trigger] stage1_seal(
                    self.key1(),
                    n,
                    plaintext.0@,
                );
            let n2 = choose|n: Seq<u8>|
                n.len() == 12 && stage2_encrypted.0@ == #[trigger] stage2_seal(
                    self.key2(),
                    n,
                    stage1_encrypted.0@,
                );
            assert(stage2_encrypted.0@ == dual_seal(self.key1(), self.key2(), n1, n2, plaintext.0@));
        }
        Ok(stage2_encrypted)
    }

    /// Reverses stage 2, then stage 1. Each result is authenticated before it
    /// is used: a failure at either stage aborts with that stage's error and
    /// no partial plaintext.
    pub fn decrypt(&self, data: EncryptedData) -> (r: Result<Plaintext, EncryptionError>)
        ensures
            r matches Ok(p) ==> dual_open(self.key1(), self.key2(), data.0@) == Some(p.0@),
            dual_open(self.key1(), self.key2(), data.0@) matches Some(m) ==> r matches Ok(p)
                && p.0@ == m,
            r is Err ==> dual_open(self.key1(), self.key2(), data.0@) is None,
            r matches Err(e) ==> (e is Stage2 <==> stage2_open(self.key2(), data.0@) is None),
            r matches Err(e) ==> (e is Stage1 <==> (stage2_open(self.key2(), data.0@) matches Some(
                inner,
            ) && stage1_open(self.key1(), inner) is None)),
    {
        let stage2_decrypted = match self.stage2.decrypt(&data) {
            Ok(v) => v,
            Err(e) => return Err(e),
        };
        let stage1_decrypted = match self.stage1.decrypt(&stage2_decrypted) {
            Ok(v) => v,
            Err(e) => return Err(e),
        };
        Ok(stage1_decrypted)
    }
}

} // verus!
