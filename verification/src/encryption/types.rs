use vstd::prelude::*;

verus! {

/// Caller-supplied payload bytes; opaque to the pipeline.
#[derive(Debug, Clone)]
pub struct Plaintext(pub Vec<u8>);

/// One authenticated-encryption bundle: a fresh nonce followed by the
/// ciphertext (which ends in the cipher's authentication tag).
#[derive(Debug, Clone)]
pub struct EncryptedData(pub Vec<u8>);

} // verus!
