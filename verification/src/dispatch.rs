//! The transfer orchestrator: from an incoming payment to the chain of
//! transfers that forwards its shares. Nothing is transferred here; the chain
//! is the plan that the caller carries out, and it exists only when every
//! check has passed.

use vstd::prelude::*;
use crate::chain::{
    FinalizeArgs, FinalizeArgsView, PendingTransferChain, PendingTransferChainView, TransferCall,
    TransferCallView, BASE_GAS, TOKEN_TRANSFER_DEPOSIT,
};
use crate::fees::{
    native_split_outcome, split_native, split_token, token_split_outcome, SplitError, SplitResult,
};
use crate::payload::{parse_routing, routing_of, PayloadError, Routing, RoutingView};

verus! {

/// Why a payment set off no chain.
#[derive(Clone, Copy, Debug, PartialEq, Eq, Structural)]
pub enum DispatchError {
    /// The routing payload of a token transfer was refused.
    Payload(PayloadError),
    /// The split of the gross amount was refused.
    Split(SplitError),
}

/// An incoming payment.
#[derive(Clone, Debug)]
pub enum Trigger {
    /// A deposit of native currency by `sender`, to be paid on to `receiver`.
    NativeDeposit { sender: String, receiver: String, amount: u128 },
    /// A notice from the token ledger `token` that `sender` sent `amount` of
    /// its token along with the routing payload `message`.
    TokenTransfer { token: String, sender: String, amount: u128, message: String },
}

/// The chain of a native deposit: one transfer of the recipient's share, and
/// a continuation that is told that nothing was burnt.
pub open spec fn native_chain(
    sender: Seq<char>,
    receiver: Seq<char>,
    gross: u128,
    shares: SplitResult,
) -> PendingTransferChainView {
    PendingTransferChainView {
        calls: seq![
            TransferCallView::Native { destination: receiver, amount: shares.recipient_share },
        ],
        finalize: FinalizeArgsView {
            receiver,
            burner: "none"@,
            full_amount: gross,
            recipient_share: shares.recipient_share,
            fee_amount: shares.fee_share,
            burn_amount: shares.burn_share,
            asset: "NATIVE"@,
            sender,
        },
    }
}

/// One call to a token ledger.
pub open spec fn token_call(ledger: Seq<char>, destination: Seq<char>, amount: u128)
    -> TransferCallView {
    TransferCallView::Token {
        ledger,
        destination,
        amount,
        memo: "memo"@,
        attached_deposit: TOKEN_TRANSFER_DEPOSIT,
        gas: BASE_GAS,
    }
}

/// The chain of a token transfer: the recipient's share to the receiver, then
/// the burn to the burner, both on the ledger that sent the notice.
pub open spec fn token_chain(
    token: Seq<char>,
    sender: Seq<char>,
    routing: RoutingView,
    gross: u128,
    shares: SplitResult,
) -> PendingTransferChainView {
    PendingTransferChainView {
        calls: seq![
            token_call(token, routing.receiver, shares.recipient_share),
            token_call(token, routing.burner, shares.burn_share),
        ],
        finalize: FinalizeArgsView {
            receiver: routing.receiver,
            burner: routing.burner,
            full_amount: gross,
            recipient_share: shares.recipient_share,
            fee_amount: shares.fee_share,
            burn_amount: shares.burn_share,
            asset: token,
            sender,
        },
    }
}

/// What a native deposit sets off.
pub open spec fn native_dispatch(
    sender: Seq<char>,
    receiver: Seq<char>,
    gross: u128,
    fee_numerator: u128,
) -> Result<PendingTransferChainView, DispatchError> {
    match native_split_outcome(gross, fee_numerator) {
        Err(e) => Err(DispatchError::Split(e)),
        Ok(shares) => Ok(native_chain(sender, receiver, gross, shares)),
    }
}

/// What a token transfer with a given routing sets off.
pub open spec fn routed_token_dispatch(
    token: Seq<char>,
    sender: Seq<char>,
    routing: RoutingView,
    gross: u128,
    fee_numerator: u128,
) -> Result<PendingTransferChainView, DispatchError> {
    match token_split_outcome(gross, fee_numerator) {
        Err(e) => Err(DispatchError::Split(e)),
        Ok(shares) => Ok(token_chain(token, sender, routing, gross, shares)),
    }
}

/// What a token transfer sets off: the payload is read first, then the
/// amount is split.
pub open spec fn token_dispatch(
    token: Seq<char>,
    sender: Seq<char>,
    message: Seq<char>,
    gross: u128,
    fee_numerator: u128,
) -> Result<PendingTransferChainView, DispatchError> {
    match routing_of(message) {
        Err(e) => Err(DispatchError::Payload(e)),
        Ok(routing) => routed_token_dispatch(token, sender, routing, gross, fee_numerator),
    }
}

/// An incoming payment as plain values.
pub enum TriggerView {
    NativeDeposit { sender: Seq<char>, receiver: Seq<char>, amount: u128 },
    TokenTransfer { token: Seq<char>, sender: Seq<char>, amount: u128, message: Seq<char> },
}

impl View for Trigger {
    type V = TriggerView;

    open spec fn view(&self) -> TriggerView {
        match *self {
            Trigger::NativeDeposit { sender, receiver, amount } => TriggerView::NativeDeposit {
                sender: sender@,
                receiver: receiver@,
                amount,
            },
            Trigger::TokenTransfer { token, sender, amount, message } => TriggerView::TokenTransfer {
                token: token@,
                sender: sender@,
                amount,
                message: message@,
            },
        }
    }
}

/// What an incoming payment sets off under a fee numerator.
pub open spec fn dispatch_outcome(trigger: TriggerView, fee_numerator: u128) -> Result<
    PendingTransferChainView,
    DispatchError,
> {
    match trigger {
        TriggerView::NativeDeposit { sender, receiver, amount } => native_dispatch(
            sender,
            receiver,
            amount,
            fee_numerator,
        ),
        TriggerView::TokenTransfer { token, sender, amount, message } => token_dispatch(
            token,
            sender,
            message,
            amount,
            fee_numerator,
        ),
    }
}

/// `got` is `expected`, the chain taken by its view.
pub open spec fn chain_result_is(
    got: Result<PendingTransferChain, DispatchError>,
    expected: Result<PendingTransferChainView, DispatchError>,
) -> bool {
    match got {
        Ok(chain) => expected == Ok::<PendingTransferChainView, DispatchError>(chain@),
        Err(e) => expected == Err::<PendingTransferChainView, DispatchError>(e),
    }
}

/// Plans the forwarding of a native deposit: the recipient's share goes to
/// `receiver` in one transfer, whose continuation settles the payment.
pub fn dispatch_native(sender: String, receiver: String, gross: u128, fee_numerator: u128) -> (r:
    Result<PendingTransferChain, DispatchError>)
    ensures
        chain_result_is(r, native_dispatch(sender@, receiver@, gross, fee_numerator)),
{
    let shares = match split_native(gross, fee_numerator) {
        Ok(shares) => shares,
        Err(e) => {
            return Err(DispatchError::Split(e));
        },
    };
    let mut calls: Vec<TransferCall> = Vec::new();
    calls.push(
        TransferCall::Native { destination: receiver.clone(), amount: shares.recipient_share },
    );
    let chain = PendingTransferChain {
        calls,
        finalize: FinalizeArgs {
            receiver,
            burner: "none".to_owned(),
            full_amount: gross,
            recipient_share: shares.recipient_share,
            fee_amount: shares.fee_share,
            burn_amount: shares.burn_share,
            asset: "NATIVE".to_owned(),
            sender,
        },
    };
    assert(chain@.calls =~= native_chain(sender@, receiver@, gross, shares).calls);
    Ok(chain)
}

/// Builds one call to a token ledger.
fn make_token_call(ledger: String, destination: String, amount: u128) -> (call: TransferCall)
    ensures
        call@ == token_call(ledger@, destination@, amount),
{
    TransferCall::Token {
        ledger,
        destination,
        amount,
        memo: "memo".to_owned(),
        attached_deposit: TOKEN_TRANSFER_DEPOSIT,
        gas: BASE_GAS,
    }
}

/// Plans the forwarding of a token transfer whose routing is known: the
/// recipient's share goes to the receiver, then the burn to the burner, and
/// the continuation of the second call settles the payment.
pub fn dispatch_token_routed(
    token: String,
    sender: String,
    routing: Routing,
    gross: u128,
    fee_numerator: u128,
) -> (r: Result<PendingTransferChain, DispatchError>)
    ensures
        chain_result_is(
            r,
            routed_token_dispatch(token@, sender@, routing@, gross, fee_numerator),
        ),
{
    let shares = match split_token(gross, fee_numerator) {
        Ok(shares) => shares,
        Err(e) => {
            return Err(DispatchError::Split(e));
        },
    };
    let mut calls: Vec<TransferCall> = Vec::new();
    calls.push(make_token_call(token.clone(), routing.receiver.clone(), shares.recipient_share));
    calls.push(make_token_call(token.clone(), routing.burner.clone(), shares.burn_share));
    let chain = PendingTransferChain {
        calls,
        finalize: FinalizeArgs {
            receiver: routing.receiver,
            burner: routing.burner,
            full_amount: gross,
            recipient_share: shares.recipient_share,
            fee_amount: shares.fee_share,
            burn_amount: shares.burn_share,
            asset: token,
            sender,
        },
    };
    assert(chain@.calls =~= token_chain(token@, sender@, routing@, gross, shares).calls);
    Ok(chain)
}

/// Plans the forwarding of a token transfer from its routing payload. A
/// payload that gives no receiver or no burner sets off nothing.
pub fn dispatch_token(
    token: String,
    sender: String,
    message: &str,
    gross: u128,
    fee_numerator: u128,
) -> (r: Result<PendingTransferChain, DispatchError>)
    ensures
        chain_result_is(r, token_dispatch(token@, sender@, message@, gross, fee_numerator)),
{
    match parse_routing(message) {
        Err(e) => Err(DispatchError::Payload(e)),
        Ok(routing) => dispatch_token_routed(token, sender, routing, gross, fee_numerator),
    }
}

/// Plans the chain of transfers of an incoming payment.
pub fn dispatch(trigger: Trigger, fee_numerator: u128) -> (r: Result<
    PendingTransferChain,
    DispatchError,
>)
    ensures
        chain_result_is(r, dispatch_outcome(trigger@, fee_numerator)),
{
    match trigger {
        Trigger::NativeDeposit { sender, receiver, amount } => dispatch_native(
            sender,
            receiver,
            amount,
            fee_numerator,
        ),
        Trigger::TokenTransfer { token, sender, amount, message } => dispatch_token(
            token,
            sender,
            message.as_str(),
            amount,
            fee_numerator,
        ),
    }
}

} // verus!
