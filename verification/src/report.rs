//! Reporting: from a terminal submission outcome and the generated mint
//! identity to the caller-facing result record.

use vstd::prelude::*;

use crate::error::TokenError;
use crate::ledger::Address;
use crate::ledger::address_to_string;
use crate::ledger::base58_of;
use crate::network::NetworkType;
use crate::network::explorer_prefix;
use crate::network::explorer_suffix;
use crate::network::explorer_url_for;
use crate::submit::SubmissionOutcome;

verus! {

/// The caller-facing record of one issuance attempt.
#[derive(Debug, Clone)]
pub struct TokenCreationResult {
    pub status: String,
    pub mint: String,
    pub explorer_url: String,
    pub signature: String,
}

/// The status word reported for each outcome.  A timed-out attempt reads
/// `Unknown`, deliberately distinct from both `Created` and `Failed`: the
/// transaction may still land, so the caller must not blindly retry.
pub open spec fn status_text(o: SubmissionOutcome) -> Seq<char> {
    match o {
        SubmissionOutcome::Confirmed { .. } => "Created"@,
        SubmissionOutcome::Rejected { .. } => "Failed"@,
        SubmissionOutcome::TimedOut => "Unknown"@,
    }
}

/// The transaction signature a result carries: the network-assigned
/// identifier on confirmation, empty otherwise.
pub open spec fn outcome_signature(o: SubmissionOutcome) -> Seq<char> {
    match o {
        SubmissionOutcome::Confirmed { signature } => signature@,
        SubmissionOutcome::Rejected { .. } => ""@,
        SubmissionOutcome::TimedOut => ""@,
    }
}

/// Map a terminal outcome, the mint address and the network into the
/// result record: the status word of the outcome, the mint address in
/// base58, the network's explorer URL with that address filled in, and the
/// confirmation signature if one was observed.
pub fn report_result(outcome: SubmissionOutcome, mint: &Address, network: NetworkType) -> (r:
    TokenCreationResult)
    ensures
        r.status@ == status_text(outcome),
        r.mint@ == base58_of(mint@),
        r.explorer_url@ == explorer_prefix(network) + base58_of(mint@) + explorer_suffix(network),
        r.signature@ == outcome_signature(outcome),
{
    let mint_str = address_to_string(mint);
    let explorer_url = explorer_url_for(network, mint_str.as_str());
    match outcome {
        SubmissionOutcome::Confirmed { signature } => TokenCreationResult {
            status: String::from_str("Created"),
            mint: mint_str,
            explorer_url,
            signature,
        },
        SubmissionOutcome::Rejected { .. } => TokenCreationResult {
            status: String::from_str("Failed"),
            mint: mint_str,
            explorer_url,
            signature: String::from_str(""),
        },
        SubmissionOutcome::TimedOut => TokenCreationResult {
            status: String::from_str("Unknown"),
            mint: mint_str,
            explorer_url,
            signature: String::from_str(""),
        },
    }
}

/// The typed error, if any, that a terminal outcome raises at the route
/// boundary: none on confirmation, the ledger's refusal on rejection, and
/// the ambiguous-outcome error on a timeout.
pub fn outcome_error(outcome: &SubmissionOutcome) -> (r: Option<TokenError>)
    ensures
        outcome is Confirmed ==> r is None,
        outcome matches SubmissionOutcome::Rejected { reason } ==> (r matches Some(e)
            && e matches TokenError::Rejected { reason: carried } && carried@ == reason@),
        outcome is TimedOut ==> (r matches Some(e) && e is Ambiguous),
{
    match outcome {
        SubmissionOutcome::Confirmed { .. } => None,
        SubmissionOutcome::Rejected { reason } => Some(
            TokenError::Rejected { reason: String::from_str(reason.as_str()) },
        ),
        SubmissionOutcome::TimedOut => Some(TokenError::Ambiguous),
    }
}

/// The status of a timed-out attempt differs from both the created and the
/// failed status: ambiguity is surfaced as its own word.
pub proof fn lemma_timeout_status_distinct()
    ensures
        status_text(SubmissionOutcome::TimedOut) != "Created"@,
        status_text(SubmissionOutcome::TimedOut) != "Failed"@,
{
    reveal_strlit("Unknown");
    reveal_strlit("Created");
    reveal_strlit("Failed");
    assert("Unknown"@[0] == 'U' && "Created"@[0] == 'C' && "Failed"@[0] == 'F');
}

} // verus!
