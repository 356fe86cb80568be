//! Deterministic, content-addressed identifiers: a submission's task
//! identifier and proof hash are digests of its final ciphertext, so identical
//! ciphertext always maps to identical identifiers and an external ledger
//! indexer can detect replays.

use vstd::prelude::*;
use sha2::{Digest, Sha256};

verus! {

/// Byte length of the digests (256 bits).
pub const DIGEST_LEN: usize = 32;

/// The SHA-256 digest of a byte sequence; a deterministic function of the
/// bytes alone.
pub uninterp spec fn sha256_of(data: Seq<u8>) -> Seq<u8>;

/// Relies on `sha2::Sha256`: `Digest::digest` computes a deterministic
/// function of its input (named `sha256_of`) and returns exactly 32 bytes.
#[verifier::external_body]
fn sha256_digest(data: &[u8]) -> (r: Vec<u8>)
    ensures
        r@ == sha256_of(data@),
        r@.len() == DIGEST_LEN,
{
    Sha256::digest(data).to_vec()
}

/// Correlates a local submission with its ledger-anchored proof.
#[derive(Debug, Clone)]
pub struct TaskIdentifier {
    pub bytes: Vec<u8>,
}

/// The digest a ledger proof is checked against.
#[derive(Debug, Clone)]
pub struct ProofHash {
    pub bytes: Vec<u8>,
}

impl TaskIdentifier {
    /// A well-formed identifier holds a 256-bit digest.
    pub open spec fn wf(&self) -> bool {
        self.bytes@.len() == DIGEST_LEN
    }
}

impl ProofHash {
    /// A well-formed proof hash holds a 256-bit digest.
    pub open spec fn wf(&self) -> bool {
        self.bytes@.len() == DIGEST_LEN
    }
}

/// Derives the task identifier and proof hash of a ciphertext. Both are the
/// SHA-256 digest of the ciphertext bytes — deliberately the same digest under
/// the current design — so two calls on identical ciphertext always agree.
pub fn derive_identifiers(ciphertext: &[u8]) -> (r: (TaskIdentifier, ProofHash))
    ensures
        r.0.bytes@ == sha256_of(ciphertext@),
        r.1.bytes@ == sha256_of(ciphertext@),
        r.0.wf(),
        r.1.wf(),
{
    let task = sha256_digest(ciphertext);
    let proof_hash = sha256_digest(ciphertext);
    (TaskIdentifier { bytes: task }, ProofHash { bytes: proof_hash })
}

} // verus!
