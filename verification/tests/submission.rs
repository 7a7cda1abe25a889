use token_issuer::error::TokenError;
use token_issuer::ledger::Address;
use token_issuer::network::NetworkType;
use token_issuer::report::{outcome_error, report_result};
use token_issuer::submit::{submit_step, SubmissionOutcome, SubmitAction, SubmitEvent, SubmitState};

fn addr(b: u8) -> Address {
    Address { bytes: [b; 32] }
}

#[test]
fn timeout_status_is_distinct_and_never_resent() {
    let result = report_result(SubmissionOutcome::TimedOut, &addr(5), NetworkType::Devnet);
    assert_eq!(result.status, "Unknown");
    assert_ne!(result.status, "Created");
    assert_ne!(result.status, "Failed");
    assert_eq!(result.signature, "");

    // After the budget runs out, the protocol stops; it never prescribes a
    // second send for the same payload.
    let pending = SubmitState::Pending { signature: "sig".to_string(), polls_left: 0 };
    let (state, action) = submit_step(pending, SubmitEvent::PollPending);
    assert_eq!(action, SubmitAction::Stop);
    assert!(matches!(
        state,
        SubmitState::Settled { outcome: SubmissionOutcome::TimedOut }
    ));
    let (state, action) = submit_step(state, SubmitEvent::Start);
    assert_eq!(action, SubmitAction::Stop);
    assert!(matches!(state, SubmitState::Settled { .. }));
}

#[test]
fn expired_freshness_token_times_the_attempt_out() {
    let pending = SubmitState::Pending { signature: "sig".to_string(), polls_left: 9 };
    let (state, action) = submit_step(pending, SubmitEvent::BlockhashExpired);
    assert_eq!(action, SubmitAction::Stop);
    assert!(matches!(
        state,
        SubmitState::Settled { outcome: SubmissionOutcome::TimedOut }
    ));
}

#[test]
fn protocol_walks_from_built_to_confirmation() {
    let mut state = SubmitState::Built { polls_budget: 3 };
    let (s, action) = submit_step(state, SubmitEvent::Start);
    state = s;
    assert_eq!(action, SubmitAction::Send);
    assert!(matches!(state, SubmitState::Built { .. }));

    let (s, action) = submit_step(state, SubmitEvent::Sent { signature: "abc".to_string() });
    state = s;
    assert_eq!(action, SubmitAction::Poll);
    assert!(matches!(&state, SubmitState::Pending { signature, polls_left: 3 } if signature == "abc"));

    let (s, action) = submit_step(state, SubmitEvent::PollPending);
    state = s;
    assert_eq!(action, SubmitAction::Poll);
    assert!(matches!(&state, SubmitState::Pending { polls_left: 2, .. }));

    let (s, action) = submit_step(state, SubmitEvent::PollConfirmed);
    assert_eq!(action, SubmitAction::Stop);
    assert!(matches!(
        &s,
        SubmitState::Settled { outcome: SubmissionOutcome::Confirmed { signature } } if signature == "abc"
    ));
}

#[test]
fn refusal_at_send_settles_as_rejected() {
    let built = SubmitState::Built { polls_budget: 3 };
    let (state, action) = submit_step(
        built,
        SubmitEvent::SendRefused { reason: "bad payload".to_string(), insufficient_funds: false },
    );
    assert_eq!(action, SubmitAction::Stop);
    match state {
        SubmitState::Settled { outcome: SubmissionOutcome::Rejected { reason } } => {
            assert_eq!(reason, "bad payload");
        }
        other => panic!("expected a rejection, got {:?}", other),
    }
}

#[test]
fn unfunded_payer_aborts_the_attempt() {
    let built = SubmitState::Built { polls_budget: 3 };
    let (state, action) = submit_step(
        built,
        SubmitEvent::SendRefused { reason: "no lamports".to_string(), insufficient_funds: true },
    );
    assert_eq!(action, SubmitAction::Stop);
    assert!(matches!(state, SubmitState::Aborted { error: TokenError::InsufficientFunds }));
}

#[test]
fn unreachable_transport_aborts_with_network_error() {
    let built = SubmitState::Built { polls_budget: 3 };
    let (state, action) =
        submit_step(built, SubmitEvent::SendUnreachable { reason: "refused".to_string() });
    assert_eq!(action, SubmitAction::Stop);
    match state {
        SubmitState::Aborted { error: TokenError::Network { reason } } => {
            assert_eq!(reason, "refused");
        }
        other => panic!("expected a network abort, got {:?}", other),
    }
}

#[test]
fn on_ledger_failure_during_polling_is_rejected() {
    let pending = SubmitState::Pending { signature: "sig".to_string(), polls_left: 5 };
    let (state, action) =
        submit_step(pending, SubmitEvent::PollFailed { reason: "custom program error".to_string() });
    assert_eq!(action, SubmitAction::Stop);
    match state {
        SubmitState::Settled { outcome: SubmissionOutcome::Rejected { reason } } => {
            assert_eq!(reason, "custom program error");
        }
        other => panic!("expected a rejection, got {:?}", other),
    }
}

#[test]
fn rejected_outcome_reports_failed_with_reason_error() {
    let outcome = SubmissionOutcome::Rejected { reason: "stale blockhash".to_string() };
    let result = report_result(outcome.clone(), &addr(5), NetworkType::Mainnet);
    assert_eq!(result.status, "Failed");
    assert_eq!(result.signature, "");
    assert!(!result.explorer_url.contains("cluster"));
    match outcome_error(&outcome) {
        Some(TokenError::Rejected { reason }) => assert_eq!(reason, "stale blockhash"),
        other => panic!("expected the rejection error, got {:?}", other),
    }
}

#[test]
fn outcome_errors_follow_the_taxonomy() {
    assert!(outcome_error(&SubmissionOutcome::Confirmed { signature: "s".to_string() }).is_none());
    assert!(matches!(
        outcome_error(&SubmissionOutcome::TimedOut),
        Some(TokenError::Ambiguous)
    ));
}

#[test]
fn error_messages_name_each_failure() {
    assert_eq!(
        TokenError::Validation { reason: "decimals must be at most 9".to_string() }.message(),
        "invalid request: decimals must be at most 9"
    );
    assert_eq!(
        TokenError::Network { reason: "timed out".to_string() }.message(),
        "network unreachable: timed out"
    );
    assert_eq!(TokenError::InsufficientFunds.message(), "payer has insufficient funds");
    assert_eq!(
        TokenError::Rejected { reason: "boom".to_string() }.message(),
        "transaction rejected: boom"
    );
    assert_eq!(
        TokenError::Ambiguous.message(),
        "confirmation not observed within the polling budget"
    );
}
