//! The submission protocol: one send, then bounded confirmation polling.
//!
//! The decisions of the protocol live here as a pure transition function;
//! the driver that owns the transport performs each prescribed action and
//! hands the observed event back.  A transaction is sent exactly once: if
//! its freshness token expires, or the polling budget runs out, before a
//! confirmation is observed, the attempt ends as timed out and is never
//! resent — resending after expiry is defined by the ledger to fail, and
//! resending with the same mint identity risks a double issuance.

use vstd::prelude::*;

use crate::error::TokenError;

verus! {

/// The terminal outcome of driving one signed transaction.
#[derive(Debug, Clone)]
pub enum SubmissionOutcome {
    /// The ledger confirmed the transaction under this signature.
    Confirmed { signature: String },
    /// The ledger explicitly refused or failed the transaction.
    Rejected { reason: String },
    /// Confirmation was not observed within the budget; the transaction may
    /// still land, so this is neither success nor failure.
    TimedOut,
}

/// Where one submission stands.
#[derive(Debug, Clone)]
pub enum SubmitState {
    /// Assembled and signed, not yet handed to the transport.
    Built { polls_budget: u32 },
    /// Sent under `signature`; at most `polls_left` polls remain.
    Pending { signature: String, polls_left: u32 },
    /// A terminal outcome was reached.
    Settled { outcome: SubmissionOutcome },
    /// The transport failed before the payload was handed over: nothing
    /// reached the ledger and a fresh attempt is safe.
    Aborted { error: TokenError },
}

/// What the driver observed.
#[derive(Debug, Clone)]
pub enum SubmitEvent {
    /// Nothing has happened yet.
    Start,
    /// The send went through and returned this signature.
    Sent { signature: String },
    /// The ledger answered the send with a refusal.
    SendRefused { reason: String, insufficient_funds: bool },
    /// The transport could not reach the ledger at all.
    SendUnreachable { reason: String },
    /// A poll found the transaction confirmed.
    PollConfirmed,
    /// A poll found the transaction failed on the ledger.
    PollFailed { reason: String },
    /// A poll found the transaction still unconfirmed, or went unanswered.
    PollPending,
    /// The freshness token expired with no confirmation observed.
    BlockhashExpired,
}

/// What the driver must do next.
#[derive(Debug, Clone, Copy, PartialEq, Eq, Structural)]
pub enum SubmitAction {
    /// Hand the signed payload to the transport.
    Send,
    /// Wait one interval, then poll the confirmation status.
    Poll,
    /// Stop: the state is terminal.
    Stop,
}

/// The transition table of the submission protocol.  An event that does
/// not belong to the current state leaves the state unchanged and stops.
pub open spec fn step_spec(s: SubmitState, e: SubmitEvent) -> (SubmitState, SubmitAction) {
    match (s, e) {
        (SubmitState::Built { polls_budget }, SubmitEvent::Start) => (
            SubmitState::Built { polls_budget },
            SubmitAction::Send,
        ),
        (SubmitState::Built { polls_budget }, SubmitEvent::Sent { signature }) => (
            SubmitState::Pending { signature, polls_left: polls_budget },
            SubmitAction::Poll,
        ),
        (SubmitState::Built { .. }, SubmitEvent::SendRefused { reason, insufficient_funds }) => (
            if insufficient_funds {
                SubmitState::Aborted { error: TokenError::InsufficientFunds }
            } else {
                SubmitState::Settled { outcome: SubmissionOutcome::Rejected { reason } }
            },
            SubmitAction::Stop,
        ),
        (SubmitState::Built { .. }, SubmitEvent::SendUnreachable { reason }) => (
            SubmitState::Aborted { error: TokenError::Network { reason } },
            SubmitAction::Stop,
        ),
        (SubmitState::Pending { signature, .. }, SubmitEvent::PollConfirmed) => (
            SubmitState::Settled { outcome: SubmissionOutcome::Confirmed { signature } },
            SubmitAction::Stop,
        ),
        (SubmitState::Pending { .. }, SubmitEvent::PollFailed { reason }) => (
            SubmitState::Settled { outcome: SubmissionOutcome::Rejected { reason } },
            SubmitAction::Stop,
        ),
        (SubmitState::Pending { signature, polls_left }, SubmitEvent::PollPending) => if polls_left
            == 0 {
            (SubmitState::Settled { outcome: SubmissionOutcome::TimedOut }, SubmitAction::Stop)
        } else {
            (
                SubmitState::Pending { signature, polls_left: (polls_left - 1) as u32 },
                SubmitAction::Poll,
            )
        },
        (SubmitState::Pending { .. }, SubmitEvent::BlockhashExpired) => (
            SubmitState::Settled { outcome: SubmissionOutcome::TimedOut },
            SubmitAction::Stop,
        ),
        (s2, _) => (s2, SubmitAction::Stop),
    }
}

/// Advance the submission protocol by one observed event.
pub fn submit_step(state: SubmitState, event: SubmitEvent) -> (r: (SubmitState, SubmitAction))
    ensures
        r == step_spec(state, event),
{
    match (state, event) {
        (SubmitState::Built { polls_budget }, SubmitEvent::Start) => (
            SubmitState::Built { polls_budget },
            SubmitAction::Send,
        ),
        (SubmitState::Built { polls_budget }, SubmitEvent::Sent { signature }) => (
            SubmitState::Pending { signature, polls_left: polls_budget },
            SubmitAction::Poll,
        ),
        (SubmitState::Built { .. }, SubmitEvent::SendRefused { reason, insufficient_funds }) => (
            if insufficient_funds {
                SubmitState::Aborted { error: TokenError::InsufficientFunds }
            } else {
                SubmitState::Settled { outcome: SubmissionOutcome::Rejected { reason } }
            },
            SubmitAction::Stop,
        ),
        (SubmitState::Built { .. }, SubmitEvent::SendUnreachable { reason }) => (
            SubmitState::Aborted { error: TokenError::Network { reason } },
            SubmitAction::Stop,
        ),
        (SubmitState::Pending { signature, .. }, SubmitEvent::PollConfirmed) => (
            SubmitState::Settled { outcome: SubmissionOutcome::Confirmed { signature } },
            SubmitAction::Stop,
        ),
        (SubmitState::Pending { .. }, SubmitEvent::PollFailed { reason }) => (
            SubmitState::Settled { outcome: SubmissionOutcome::Rejected { reason } },
            SubmitAction::Stop,
        ),
        (SubmitState::Pending { signature, polls_left }, SubmitEvent::PollPending) => {
            if polls_left == 0 {
                (SubmitState::Settled { outcome: SubmissionOutcome::TimedOut }, SubmitAction::Stop)
            } else {
                (
                    SubmitState::Pending { signature, polls_left: polls_left - 1 },
                    SubmitAction::Poll,
                )
            }
        },
        (SubmitState::Pending { .. }, SubmitEvent::BlockhashExpired) => (
            SubmitState::Settled { outcome: SubmissionOutcome::TimedOut },
            SubmitAction::Stop,
        ),
        (s2, _) => (s2, SubmitAction::Stop),
    }
}

/// The protocol prescribes a send only from the built state: once the
/// payload has been handed over, no later event — a timeout included —
/// ever leads to sending it again.
pub proof fn lemma_no_resend(s: SubmitState, e: SubmitEvent)
    ensures
        step_spec(s, e).1 == SubmitAction::Send ==> s is Built,
{
}

/// A settled or aborted submission stays where it is: terminal states
/// absorb every further event and always prescribe stopping.
pub proof fn lemma_terminal_states_absorb(s: SubmitState, e: SubmitEvent)
    ensures
        s is Settled || s is Aborted ==> step_spec(s, e) == (s, SubmitAction::Stop),
{
}

/// From a pending submission the protocol can settle on a timeout only by
/// an exhausted budget or an expired freshness token, and it settles on a
/// confirmation only under the signature the send returned.
pub proof fn lemma_pending_settlement(signature: String, polls_left: u32, e: SubmitEvent)
    ensures
        ({
            let s = SubmitState::Pending { signature, polls_left };
            &&& step_spec(s, e).0 == (SubmitState::Settled {
                outcome: SubmissionOutcome::TimedOut,
            }) ==> (e is BlockhashExpired || (e is PollPending && polls_left == 0))
            &&& e is PollConfirmed ==> step_spec(s, e).0 == (SubmitState::Settled {
                outcome: SubmissionOutcome::Confirmed { signature },
            })
        }),
{
}

} // verus!
