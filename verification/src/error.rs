use vstd::prelude::*;

verus! {

/// The failure taxonomy of one issuance attempt.
///
/// `Validation` arises locally, before any address is derived or any byte is
/// sent.  `Network` means the transport never handed the payload to the
/// ledger, so a fresh attempt is safe.  `InsufficientFunds` means the payer
/// cannot cover rent and fees; retrying is pointless until the payer is
/// funded.  `Rejected` carries the ledger's own refusal verbatim.
/// `Ambiguous` records that confirmation was not observed within the polling
/// budget: the transaction may still land, so it is neither success nor
/// failure.
#[derive(Debug, Clone)]
pub enum TokenError {
    Validation { reason: String },
    Network { reason: String },
    InsufficientFunds,
    Rejected { reason: String },
    Ambiguous,
}

/// The text that `TokenError::message` returns for each variant.
pub open spec fn error_text(e: TokenError) -> Seq<char> {
    match e {
        TokenError::Validation { reason } => "invalid request: "@ + reason@,
        TokenError::Network { reason } => "network unreachable: "@ + reason@,
        TokenError::InsufficientFunds => "payer has insufficient funds"@,
        TokenError::Rejected { reason } => "transaction rejected: "@ + reason@,
        TokenError::Ambiguous => "confirmation not observed within the polling budget"@,
    }
}

impl TokenError {
    /// A human-readable description of the failure.
    pub fn message(&self) -> (r: String)
        ensures
            r@ == error_text(*self),
    {
        match self {
            TokenError::Validation { reason } => {
                let mut s = String::from_str("invalid request: ");
                s.append(reason.as_str());
                s
            },
            TokenError::Network { reason } => {
                let mut s = String::from_str("network unreachable: ");
                s.append(reason.as_str());
                s
            },
            TokenError::InsufficientFunds => String::from_str("payer has insufficient funds"),
            TokenError::Rejected { reason } => {
                let mut s = String::from_str("transaction rejected: ");
                s.append(reason.as_str());
                s
            },
            TokenError::Ambiguous => {
                String::from_str("confirmation not observed within the polling budget")
            },
        }
    }
}

} // verus!
