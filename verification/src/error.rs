use vstd::prelude::*;

verus! {

/// Errors of the service.
#[derive(Debug)]
pub enum FactorioopsError {
    /// A security operation (such as hashing a password) failed.
    SecurityError(String),
    /// Any other failure, carried as its message.
    Other(String),
}

impl FactorioopsError {
    /// The text shown to users for this error.
    pub open spec fn message_spec(&self) -> Seq<char> {
        match self {
            FactorioopsError::SecurityError(m) => "Security error: "@ + m@,
            FactorioopsError::Other(m) => "Unexpected error: "@ + m@,
        }
    }

    /// Renders the error as text: `Security error: {0}` or `Unexpected error: {0}`.
    pub fn message(&self) -> (res: String)
        ensures
            res@ == self.message_spec(),
    {
        match self {
            FactorioopsError::SecurityError(m) => {
                let mut s = String::from_str("Security error: ");
                s.append(m.as_str());
                s
            },
            FactorioopsError::Other(m) => {
                let mut s = String::from_str("Unexpected error: ");
                s.append(m.as_str());
                s
            },
        }
    }
}

} // verus!
