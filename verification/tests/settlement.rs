use tip_settlement::chain::FinalizeArgs;
use tip_settlement::dispatch::{dispatch_native, dispatch_token};
use tip_settlement::settlement::{finalize, CallOutcome, SettlementError};

fn sample_args() -> FinalizeArgs {
    FinalizeArgs {
        receiver: "alice.testnet".to_string(),
        burner: "burn.testnet".to_string(),
        full_amount: 10_000,
        recipient_share: 9_800,
        fee_amount: 100,
        burn_amount: 100,
        asset: "token.testnet".to_string(),
        sender: "bob.testnet".to_string(),
    }
}

#[test]
fn successful_outcome_gives_the_event() {
    let event = finalize(&vec![CallOutcome::Successful], sample_args()).unwrap();
    assert_eq!(event.standard, "The-Supah-Tipping-bot");
    assert_eq!(event.version, "1.0.0");
    assert_eq!(event.event, "transfer");
    assert_eq!(event.sender, "bob.testnet");
    assert_eq!(event.receiver, "alice.testnet");
    assert_eq!(event.burner, "burn.testnet");
    assert_eq!(event.token, "token.testnet");
    assert_eq!(event.full_amount, 10_000);
    assert_eq!(event.transferred_amount, 9_800);
    assert_eq!(event.fee_amount, 100);
    assert_eq!(event.burn_amount, 100);
}

#[test]
fn failed_final_call_gives_no_event() {
    let r = finalize(&vec![CallOutcome::Failed], sample_args());
    assert_eq!(r.err(), Some(SettlementError::CallFailed));
}

#[test]
fn failed_final_call_of_a_token_chain_gives_no_event() {
    let chain = dispatch_token(
        "token.testnet".to_string(),
        "bob.testnet".to_string(),
        r#"{"receiver": "alice.testnet", "burner": "burn.testnet"}"#,
        10_000,
        100,
    )
    .unwrap();
    assert_eq!(chain.calls.len(), 2);
    // Only the outcome of the second call reaches the continuation.
    let r = finalize(&vec![CallOutcome::Failed], chain.finalize);
    assert_eq!(r.err(), Some(SettlementError::CallFailed));
}

#[test]
fn unresolved_outcome_gives_no_event() {
    let r = finalize(&vec![CallOutcome::NotReady], sample_args());
    assert_eq!(r.err(), Some(SettlementError::NotReady));
}

#[test]
fn no_outcome_or_several_give_no_event() {
    assert_eq!(finalize(&vec![], sample_args()).err(), Some(SettlementError::TooManyResults));
    assert_eq!(
        finalize(&vec![CallOutcome::Successful, CallOutcome::Successful], sample_args()).err(),
        Some(SettlementError::TooManyResults)
    );
    assert_eq!(
        finalize(&vec![CallOutcome::Successful, CallOutcome::Failed], sample_args()).err(),
        Some(SettlementError::TooManyResults)
    );
    assert_eq!(
        finalize(&vec![CallOutcome::Failed, CallOutcome::Successful], sample_args()).err(),
        Some(SettlementError::TooManyResults)
    );
}

#[test]
fn event_holds_the_amounts_computed_at_dispatch() {
    let chain =
        dispatch_native("bob.testnet".to_string(), "alice.testnet".to_string(), 10_000, 500)
            .unwrap();
    let event = finalize(&vec![CallOutcome::Successful], chain.finalize).unwrap();
    assert_eq!(event.full_amount, 10_000);
    assert_eq!(event.transferred_amount, 9_500);
    assert_eq!(event.fee_amount, 500);
    assert_eq!(event.burn_amount, 0);
    assert_eq!(event.burner, "none");
    assert_eq!(event.token, "NATIVE");
    assert_eq!(event.sender, "bob.testnet");
    assert_eq!(event.receiver, "alice.testnet");
}
