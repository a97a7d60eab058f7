//! The settlement finalizer: the continuation of a chain of transfers. It
//! looks at the outcome of the last transfer and either gives the one event
//! that records the payment or refuses.

use vstd::prelude::*;
use crate::chain::{
    call_amount, transferred_total, FinalizeArgs, FinalizeArgsView, PendingTransferChainView,
};
use crate::dispatch::{dispatch_outcome, DispatchError, TriggerView};
use crate::fees::{lemma_split_conserves, split_outcome};

verus! {

/// How a transfer ended, as the ledger reports it to the continuation.
#[derive(Clone, Copy, Debug, PartialEq, Eq, Structural)]
pub enum CallOutcome {
    /// The transfer has not ended yet.
    NotReady,
    /// The transfer went through.
    Successful,
    /// The transfer failed.
    Failed,
}

/// Why a chain was not settled.
#[derive(Clone, Copy, Debug, PartialEq, Eq, Structural)]
pub enum SettlementError {
    /// The continuation was handed no outcome, or more than one.
    TooManyResults,
    /// The one outcome is that of a transfer that has not ended.
    NotReady,
    /// The last transfer of the chain failed.
    CallFailed,
}

/// The record of one settled payment.
#[derive(Clone, Debug)]
pub struct SettlementEvent {
    pub standard: String,
    pub version: String,
    pub event: String,
    pub sender: String,
    pub receiver: String,
    pub burner: String,
    pub token: String,
    pub full_amount: u128,
    pub transferred_amount: u128,
    pub fee_amount: u128,
    pub burn_amount: u128,
}

/// A settlement event as plain values.
pub struct SettlementEventView {
    pub standard: Seq<char>,
    pub version: Seq<char>,
    pub event: Seq<char>,
    pub sender: Seq<char>,
    pub receiver: Seq<char>,
    pub burner: Seq<char>,
    pub token: Seq<char>,
    pub full_amount: u128,
    pub transferred_amount: u128,
    pub fee_amount: u128,
    pub burn_amount: u128,
}

impl View for SettlementEvent {
    type V = SettlementEventView;

    open spec fn view(&self) -> SettlementEventView {
        SettlementEventView {
            standard: self.standard@,
            version: self.version@,
            event: self.event@,
            sender: self.sender@,
            receiver: self.receiver@,
            burner: self.burner@,
            token: self.token@,
            full_amount: self.full_amount,
            transferred_amount: self.transferred_amount,
            fee_amount: self.fee_amount,
            burn_amount: self.burn_amount,
        }
    }
}

/// The event that records a chain with the given continuation arguments.
pub open spec fn event_of(args: FinalizeArgsView) -> SettlementEventView {
    SettlementEventView {
        standard: "The-Supah-Tipping-bot"@,
        version: "1.0.0"@,
        event: "transfer"@,
        sender: args.sender,
        receiver: args.receiver,
        burner: args.burner,
        token: args.asset,
        full_amount: args.full_amount,
        transferred_amount: args.recipient_share,
        fee_amount: args.fee_amount,
        burn_amount: args.burn_amount,
    }
}

/// What the continuation makes of the outcomes it is handed: exactly one
/// outcome must be there, and only a successful one gives an event.
pub open spec fn settlement_of(outcomes: Seq<CallOutcome>, args: FinalizeArgsView) -> Result<
    SettlementEventView,
    SettlementError,
> {
    if outcomes.len() != 1 {
        Err(SettlementError::TooManyResults)
    } else {
        match outcomes[0] {
            CallOutcome::NotReady => Err(SettlementError::NotReady),
            CallOutcome::Failed => Err(SettlementError::CallFailed),
            CallOutcome::Successful => Ok(event_of(args)),
        }
    }
}

/// `got` is `expected`, the event taken by its view.
pub open spec fn settlement_result_is(
    got: Result<SettlementEvent, SettlementError>,
    expected: Result<SettlementEventView, SettlementError>,
) -> bool {
    match got {
        Ok(event) => expected == Ok::<SettlementEventView, SettlementError>(event@),
        Err(e) => expected == Err::<SettlementEventView, SettlementError>(e),
    }
}

/// Settles a chain: given the outcomes that the ledger reports and the
/// arguments fixed at dispatch, returns the event to record, or the reason
/// why nothing is recorded.
pub fn finalize(outcomes: &Vec<CallOutcome>, args: FinalizeArgs) -> (r: Result<
    SettlementEvent,
    SettlementError,
>)
    ensures
        settlement_result_is(r, settlement_of(outcomes@, args@)),
{
    if outcomes.len() != 1 {
        return Err(SettlementError::TooManyResults);
    }
    match outcomes[0] {
        CallOutcome::NotReady => Err(SettlementError::NotReady),
        CallOutcome::Failed => Err(SettlementError::CallFailed),
        CallOutcome::Successful => Ok(
            SettlementEvent {
                standard: "The-Supah-Tipping-bot".to_owned(),
                version: "1.0.0".to_owned(),
                event: "transfer".to_owned(),
                sender: args.sender,
                receiver: args.receiver,
                burner: args.burner,
                token: args.asset,
                full_amount: args.full_amount,
                transferred_amount: args.recipient_share,
                fee_amount: args.fee_amount,
                burn_amount: args.burn_amount,
            },
        ),
    }
}

/// An event is produced exactly when the one outcome handed over is a
/// success; it is then the event of the continuation's arguments.
pub proof fn lemma_event_only_on_success(outcomes: Seq<CallOutcome>, args: FinalizeArgsView)
    ensures
        settlement_of(outcomes, args) is Ok <==> outcomes =~= seq![CallOutcome::Successful],
        settlement_of(outcomes, args) is Ok ==> settlement_of(outcomes, args) == Ok::<
            SettlementEventView,
            SettlementError,
        >(event_of(args)),
{
}

/// Whenever the last outcome handed over is a failure, no event is produced,
/// whatever the outcomes before it and whatever the arguments.
pub proof fn lemma_failure_yields_no_event(outcomes: Seq<CallOutcome>, args: FinalizeArgsView)
    requires
        outcomes.len() > 0,
        outcomes.last() == CallOutcome::Failed,
    ensures
        settlement_of(outcomes, args) is Err,
        outcomes.len() == 1 ==> settlement_of(outcomes, args) == Err::<
            SettlementEventView,
            SettlementError,
        >(SettlementError::CallFailed),
{
}

/// The gross amount of an incoming payment.
pub open spec fn trigger_amount(trigger: TriggerView) -> u128 {
    match trigger {
        TriggerView::NativeDeposit { amount, .. } => amount,
        TriggerView::TokenTransfer { amount, .. } => amount,
    }
}

/// The burn numerator under which a payment is split: none for a native
/// deposit, the fee numerator for a token transfer.
pub open spec fn trigger_burn_numerator(trigger: TriggerView, fee_numerator: u128) -> u128 {
    match trigger {
        TriggerView::NativeDeposit { .. } => 0,
        TriggerView::TokenTransfer { .. } => fee_numerator,
    }
}

/// When the last transfer of a dispatched chain succeeds, the event that
/// settles it holds the amounts computed at dispatch: the gross amount, and
/// the three shares of its split, which add up to the gross amount. The
/// transfers of the chain move the recipient's share and, for a token, the
/// burn.
pub proof fn lemma_settlement_matches_dispatch(
    trigger: TriggerView,
    fee_numerator: u128,
    chain: PendingTransferChainView,
)
    requires
        dispatch_outcome(trigger, fee_numerator) == Ok::<PendingTransferChainView, DispatchError>(
            chain,
        ),
    ensures
        settlement_of(seq![CallOutcome::Successful], chain.finalize) matches Ok(event)
            && split_outcome(
            trigger_amount(trigger),
            fee_numerator,
            trigger_burn_numerator(trigger, fee_numerator),
        ) matches Ok(shares) && event.full_amount == trigger_amount(trigger)
            && event.transferred_amount == shares.recipient_share && event.fee_amount
            == shares.fee_share && event.burn_amount == shares.burn_share
            && event.transferred_amount + event.fee_amount + event.burn_amount
            == event.full_amount && call_amount(chain.calls[0]) == event.transferred_amount && (
        trigger is TokenTransfer ==> chain.calls.len() == 2 && call_amount(chain.calls[1])
            == event.burn_amount) && (trigger is NativeDeposit ==> chain.calls.len() == 1
            && event.burn_amount == 0),
{
    lemma_split_conserves(
        trigger_amount(trigger),
        fee_numerator,
        trigger_burn_numerator(trigger, fee_numerator),
    );
    assert(trigger_amount(trigger) * 0 == 0) by (nonlinear_arith);
}

/// The transfers of a dispatched chain move the recipient's share and the
/// burn and nothing else: what they move and the fee make up the gross
/// amount, so no chain pays out more than came in.
pub proof fn lemma_chain_moves_gross_less_fee(
    trigger: TriggerView,
    fee_numerator: u128,
    chain: PendingTransferChainView,
)
    requires
        dispatch_outcome(trigger, fee_numerator) == Ok::<PendingTransferChainView, DispatchError>(
            chain,
        ),
    ensures
        transferred_total(chain.calls) + chain.finalize.fee_amount == trigger_amount(trigger),
        transferred_total(chain.calls) == chain.finalize.recipient_share
            + chain.finalize.burn_amount,
{
    lemma_settlement_matches_dispatch(trigger, fee_numerator, chain);
    reveal_with_fuel(transferred_total, 3);
    if chain.calls.len() == 2 {
        assert(chain.calls.drop_last().len() == 1);
        assert(chain.calls.drop_last().last() == chain.calls[0]);
        assert(chain.calls.drop_last().drop_last().len() == 0);
    } else {
        assert(chain.calls.drop_last().len() == 0);
    }
}

} // verus!
