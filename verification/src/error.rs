//! Error type shared by the pricing and risk routines.

use vstd::prelude::*;

verus! {

/// All recoverable error conditions produced by the pricing/risk routines.
#[derive(Debug, Clone, PartialEq, Eq)]
pub enum PyoptxError {
    /// An input was outside its valid domain (e.g. negative spot, T < 0).
    InvalidInput(String),
    /// An iterative solver failed to converge within its budget.
    Convergence(String),
}

/// The human-readable rendering of an error: a prefix naming its kind,
/// followed by the detail message.
pub open spec fn error_text(e: PyoptxError) -> Seq<char> {
    match e {
        PyoptxError::InvalidInput(msg) => "invalid input: "@ + msg@,
        PyoptxError::Convergence(msg) => "convergence error: "@ + msg@,
    }
}

impl PyoptxError {
    /// Renders the error as text, e.g. `invalid input: S and K must be > 0`.
    pub fn message(&self) -> (res: String)
        ensures
            res@ == error_text(*self),
    {
        match self {
            PyoptxError::InvalidInput(msg) => {
                let mut res = String::from_str("invalid input: ");
                res.append(msg.as_str());
                res
            },
            PyoptxError::Convergence(msg) => {
                let mut res = String::from_str("convergence error: ");
                res.append(msg.as_str());
                res
            },
        }
    }
}

} // verus!
