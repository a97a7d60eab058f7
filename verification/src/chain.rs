//! The chain of transfers that one payment sets off, and what its
//! continuation is handed.

use vstd::prelude::*;

verus! {

/// Gas given to each call to a token ledger and to the continuation.
pub const BASE_GAS: u64 = 5_000_000_000_000;

/// Deposit attached to each call to a token ledger.
pub const TOKEN_TRANSFER_DEPOSIT: u128 = 1;

/// Deposit attached to the continuation.
pub const FINALIZE_DEPOSIT: u128 = 0;

/// One transfer that the ledger is asked for.
#[derive(Clone, Debug)]
pub enum TransferCall {
    /// A transfer of native currency to `destination`.
    Native { destination: String, amount: u128 },
    /// A call to the token ledger `ledger` that moves `amount` of its token to
    /// `destination`.
    Token {
        ledger: String,
        destination: String,
        amount: u128,
        memo: String,
        attached_deposit: u128,
        gas: u64,
    },
}

/// A transfer as plain values.
pub enum TransferCallView {
    Native { destination: Seq<char>, amount: u128 },
    Token {
        ledger: Seq<char>,
        destination: Seq<char>,
        amount: u128,
        memo: Seq<char>,
        attached_deposit: u128,
        gas: u64,
    },
}

impl View for TransferCall {
    type V = TransferCallView;

    open spec fn view(&self) -> TransferCallView {
        match *self {
            TransferCall::Native { destination, amount } => TransferCallView::Native {
                destination: destination@,
                amount,
            },
            TransferCall::Token {
                ledger,
                destination,
                amount,
                memo,
                attached_deposit,
                gas,
            } => TransferCallView::Token {
                ledger: ledger@,
                destination: destination@,
                amount,
                memo: memo@,
                attached_deposit,
                gas,
            },
        }
    }
}

/// The amount that a transfer moves.
pub open spec fn call_amount(call: TransferCallView) -> u128 {
    match call {
        TransferCallView::Native { amount, .. } => amount,
        TransferCallView::Token { amount, .. } => amount,
    }
}

/// What the continuation of a chain is handed: everything that the settlement
/// event will hold, fixed when the chain is dispatched.
#[derive(Clone, Debug)]
pub struct FinalizeArgs {
    pub receiver: String,
    pub burner: String,
    pub full_amount: u128,
    pub recipient_share: u128,
    pub fee_amount: u128,
    pub burn_amount: u128,
    pub asset: String,
    pub sender: String,
}

/// The arguments of the continuation as plain values.
pub struct FinalizeArgsView {
    pub receiver: Seq<char>,
    pub burner: Seq<char>,
    pub full_amount: u128,
    pub recipient_share: u128,
    pub fee_amount: u128,
    pub burn_amount: u128,
    pub asset: Seq<char>,
    pub sender: Seq<char>,
}

impl View for FinalizeArgs {
    type V = FinalizeArgsView;

    open spec fn view(&self) -> FinalizeArgsView {
        FinalizeArgsView {
            receiver: self.receiver@,
            burner: self.burner@,
            full_amount: self.full_amount,
            recipient_share: self.recipient_share,
            fee_amount: self.fee_amount,
            burn_amount: self.burn_amount,
            asset: self.asset@,
            sender: self.sender@,
        }
    }
}

/// The transfers of one payment, in the order in which they are issued, and
/// the arguments of the one continuation, which is attached to the last of
/// them.
#[derive(Clone, Debug)]
pub struct PendingTransferChain {
    pub calls: Vec<TransferCall>,
    pub finalize: FinalizeArgs,
}

/// A chain as plain values.
pub struct PendingTransferChainView {
    pub calls: Seq<TransferCallView>,
    pub finalize: FinalizeArgsView,
}

impl View for PendingTransferChain {
    type V = PendingTransferChainView;

    open spec fn view(&self) -> PendingTransferChainView {
        PendingTransferChainView {
            calls: self.calls@.map_values(|call: TransferCall| call@),
            finalize: self.finalize@,
        }
    }
}

/// The sum of the amounts that the transfers of a chain move.
pub open spec fn transferred_total(calls: Seq<TransferCallView>) -> int
    decreases calls.len(),
{
    if calls.len() == 0 {
        0
    } else {
        transferred_total(calls.drop_last()) + call_amount(calls.last())
    }
}

} // verus!
