use vstd::prelude::*;
use vstd::string::StringExecFns;

verus! {

/// Failure taxonomy of the encryption pipeline. A stage-scoped variant names
/// the stage whose cipher rejected the input; any such failure is fatal to the
/// operation and no partial output is ever returned.
#[derive(Debug)]
pub enum EncryptionError {
    EncryptionFailed,
    DecryptionFailed,
    InvalidKey,
    Stage1(String),
    Stage2(String),
    InvalidKeyLength,
}

/// The text that `EncryptionError::describe` returns for each variant.
pub open spec fn encryption_error_text(e: EncryptionError) -> Seq<char> {
    match e {
        EncryptionError::EncryptionFailed => "Failed to encrypt data"@,
        EncryptionError::DecryptionFailed => "Failed to decrypt data"@,
        EncryptionError::InvalidKey => "Invalid key format"@,
        EncryptionError::Stage1(m) => "Stage 1 encryption failed: "@ + m@,
        EncryptionError::Stage2(m) => "Stage 2 encryption failed: "@ + m@,
        EncryptionError::InvalidKeyLength => "Invalid key length"@,
    }
}

impl EncryptionError {
    /// Human-readable description of the failure.
    pub fn describe(&self) -> (r: String)
        ensures
            r@ == encryption_error_text(*self),
    {
        match self {
            EncryptionError::EncryptionFailed => "Failed to encrypt data".to_owned(),
            EncryptionError::DecryptionFailed => "Failed to decrypt data".to_owned(),
            EncryptionError::InvalidKey => "Invalid key format".to_owned(),
            EncryptionError::Stage1(m) => "Stage 1 encryption failed: ".to_owned().concat(m.as_str()),
            EncryptionError::Stage2(m) => "Stage 2 encryption failed: ".to_owned().concat(m.as_str()),
            EncryptionError::InvalidKeyLength => "Invalid key length".to_owned(),
        }
    }
}

} // verus!
