use vstd::prelude::*;
use vstd::string::StringExecFns;

verus! {

/// Failures of the ledger client.
#[derive(Debug)]
pub enum KCChainError {
    Initialization(String),
    Submission(String),
    Contract(String),
    Provider(String),
}

/// The text that `KCChainError::describe` returns for each variant.
pub open spec fn kc_chain_error_text(e: KCChainError) -> Seq<char> {
    match e {
        KCChainError::Initialization(m) => "Initialization error: "@ + m@,
        KCChainError::Submission(m) => "Transaction submission error: "@ + m@,
        KCChainError::Contract(m) => "Smart contract error: "@ + m@,
        KCChainError::Provider(m) => "Provider error: "@ + m@,
    }
}

impl KCChainError {
    /// Human-readable description of the failure.
    pub fn describe(&self) -> (r: String)
        ensures
            r@ == kc_chain_error_text(*self),
    {
        match self {
            KCChainError::Initialization(m) => "Initialization error: ".to_owned().concat(
                m.as_str(),
            ),
            KCChainError::Submission(m) => "Transaction submission error: ".to_owned().concat(
                m.as_str(),
            ),
            KCChainError::Contract(m) => "Smart contract error: ".to_owned().concat(m.as_str()),
            KCChainError::Provider(m) => "Provider error: ".to_owned().concat(m.as_str()),
        }
    }
}

} // verus!
