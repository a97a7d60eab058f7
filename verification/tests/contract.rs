use tip_settlement::chain::TransferCall;
use tip_settlement::contract::{AdminError, Contract, InitError, OWNER_CALL_DEPOSIT};
use tip_settlement::dispatch::DispatchError;
use tip_settlement::fees::SplitError;
use tip_settlement::payload::PayloadError;
use tip_settlement::settlement::{CallOutcome, SettlementError};

pub const OWNER_ACCOUNT: &str = "owner.testnet";

pub fn init_contract() -> Contract {
    Contract { owner_id: OWNER_ACCOUNT.to_string(), fee_numerator: 0 }
}

#[test]
fn test_new() {
    let contract = Contract::new(OWNER_ACCOUNT.to_string());
    assert_eq!(contract.owner_id, OWNER_ACCOUNT.to_string())
}

#[test]
fn new_contract_charges_no_fee() {
    let contract = Contract::new(OWNER_ACCOUNT.to_string());
    assert_eq!(contract.get_fee(), 0);
    assert_eq!(contract.fee_numerator, 0);
}

#[test]
fn try_new_checks_owner_then_state() {
    let contract = Contract::try_new(OWNER_ACCOUNT.to_string(), false).unwrap();
    assert_eq!(contract.owner_id, OWNER_ACCOUNT);
    assert_eq!(contract.fee_numerator, 0);
    assert_eq!(
        Contract::try_new("Owner".to_string(), false).err(),
        Some(InitError::InvalidOwner)
    );
    assert_eq!(Contract::try_new("".to_string(), true).err(), Some(InitError::InvalidOwner));
    assert_eq!(
        Contract::try_new(OWNER_ACCOUNT.to_string(), true).err(),
        Some(InitError::AlreadyInitialized)
    );
}

#[test]
fn owner_changes_the_fee() {
    let mut contract = init_contract();
    assert_eq!(OWNER_CALL_DEPOSIT, 1);
    assert_eq!(contract.change_fee(&OWNER_ACCOUNT.to_string(), 1, 500), Ok(()));
    assert_eq!(contract.get_fee(), 500);
    assert_eq!(contract.change_fee(&OWNER_ACCOUNT.to_string(), 1, 10_000), Ok(()));
    assert_eq!(contract.get_fee(), 10_000);
    assert_eq!(contract.owner_id, OWNER_ACCOUNT);
}

#[test]
fn refused_fee_change_changes_nothing() {
    let mut contract = init_contract();
    assert_eq!(contract.change_fee(&OWNER_ACCOUNT.to_string(), 1, 250), Ok(()));
    assert_eq!(
        contract.change_fee(&OWNER_ACCOUNT.to_string(), 1, 10_001),
        Err(AdminError::InvalidFee)
    );
    assert_eq!(
        contract.change_fee(&"mallory.testnet".to_string(), 1, 300),
        Err(AdminError::NotOwner)
    );
    assert_eq!(
        contract.change_fee(&OWNER_ACCOUNT.to_string(), 0, 300),
        Err(AdminError::DepositRequired)
    );
    assert_eq!(
        contract.change_fee(&OWNER_ACCOUNT.to_string(), 2, 300),
        Err(AdminError::DepositRequired)
    );
    assert_eq!(
        contract.change_fee(&"mallory.testnet".to_string(), 0, 10_001),
        Err(AdminError::DepositRequired)
    );
    assert_eq!(contract.get_fee(), 250);
}

#[test]
fn owner_withdraws_funds() {
    let contract = init_contract();
    match contract.withdraw_funds(&OWNER_ACCOUNT.to_string(), 1, 777).unwrap() {
        TransferCall::Native { destination, amount } => {
            assert_eq!(destination, OWNER_ACCOUNT);
            assert_eq!(amount, 777);
        }
        TransferCall::Token { .. } => panic!("a token call"),
    }
    assert_eq!(
        contract.withdraw_funds(&"mallory.testnet".to_string(), 1, 777).err(),
        Some(AdminError::NotOwner)
    );
    assert_eq!(
        contract.withdraw_funds(&OWNER_ACCOUNT.to_string(), 0, 777).err(),
        Some(AdminError::DepositRequired)
    );
}

#[test]
fn transfer_payment_uses_the_fee_in_force() {
    let mut contract = init_contract();
    let chain = contract
        .transfer_payment("bob.testnet".to_string(), 10_000, "alice.testnet".to_string())
        .unwrap();
    assert_eq!(chain.finalize.recipient_share, 10_000);
    assert_eq!(chain.finalize.fee_amount, 0);
    contract.change_fee(&OWNER_ACCOUNT.to_string(), 1, 500).unwrap();
    let chain = contract
        .transfer_payment("bob.testnet".to_string(), 10_000, "alice.testnet".to_string())
        .unwrap();
    assert_eq!(chain.calls.len(), 1);
    assert_eq!(chain.finalize.recipient_share, 9_500);
    assert_eq!(chain.finalize.fee_amount, 500);
    assert_eq!(chain.finalize.sender, "bob.testnet");
    assert_eq!(chain.finalize.receiver, "alice.testnet");
    assert_eq!(chain.finalize.asset, "NATIVE");
    let refused = contract
        .transfer_payment("bob.testnet".to_string(), u128::MAX, "alice.testnet".to_string())
        .err();
    assert_eq!(refused, Some(DispatchError::Split(SplitError::Overflow)));
}

#[test]
fn ft_on_transfer_answers_zero() {
    let mut contract = init_contract();
    contract.change_fee(&OWNER_ACCOUNT.to_string(), 1, 100).unwrap();
    let dispatched = contract
        .ft_on_transfer(
            "token.testnet".to_string(),
            "bob.testnet".to_string(),
            10_000,
            r#"{"receiver": "alice.testnet", "burner": "burn.testnet"}"#,
        )
        .unwrap();
    assert_eq!(dispatched.acknowledgement, "0");
    assert_eq!(dispatched.chain.calls.len(), 2);
    assert_eq!(dispatched.chain.finalize.recipient_share, 9_800);
    assert_eq!(dispatched.chain.finalize.burn_amount, 100);
    assert_eq!(dispatched.chain.finalize.fee_amount, 100);
    assert_eq!(dispatched.chain.finalize.asset, "token.testnet");
}

#[test]
fn ft_on_transfer_refuses_a_payload_without_receiver() {
    let contract = init_contract();
    let r = contract.ft_on_transfer(
        "token.testnet".to_string(),
        "bob.testnet".to_string(),
        10_000,
        r#"{"amount": "5"}"#,
    );
    assert_eq!(r.err(), Some(DispatchError::Payload(PayloadError::MissingReceiver)));
    let r = contract.ft_on_transfer(
        "token.testnet".to_string(),
        "bob.testnet".to_string(),
        10_000,
        "",
    );
    assert_eq!(r.err(), Some(DispatchError::Payload(PayloadError::Unparsed)));
}

#[test]
fn log_transfer_gives_the_event_on_success_only() {
    let event = Contract::log_transfer(
        &vec![CallOutcome::Successful],
        "alice.testnet".to_string(),
        "none".to_string(),
        10_000,
        9_500,
        500,
        0,
        "NATIVE".to_string(),
        "bob.testnet".to_string(),
    )
    .unwrap();
    assert_eq!(event.standard, "The-Supah-Tipping-bot");
    assert_eq!(event.version, "1.0.0");
    assert_eq!(event.event, "transfer");
    assert_eq!(event.receiver, "alice.testnet");
    assert_eq!(event.burner, "none");
    assert_eq!(event.token, "NATIVE");
    assert_eq!(event.sender, "bob.testnet");
    assert_eq!(event.full_amount, 10_000);
    assert_eq!(event.transferred_amount, 9_500);
    assert_eq!(event.fee_amount, 500);
    assert_eq!(event.burn_amount, 0);
    let failed = Contract::log_transfer(
        &vec![CallOutcome::Failed],
        "alice.testnet".to_string(),
        "none".to_string(),
        10_000,
        9_500,
        500,
        0,
        "NATIVE".to_string(),
        "bob.testnet".to_string(),
    );
    assert_eq!(failed.err(), Some(SettlementError::CallFailed));
    let none = Contract::log_transfer(
        &vec![],
        "alice.testnet".to_string(),
        "none".to_string(),
        10_000,
        9_500,
        500,
        0,
        "NATIVE".to_string(),
        "bob.testnet".to_string(),
    );
    assert_eq!(none.err(), Some(SettlementError::TooManyResults));
}
