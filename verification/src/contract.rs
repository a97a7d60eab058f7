//! The contract: its owner, its fee schedule, and the entry points through
//! which payments come in and are settled.

use vstd::prelude::*;
use crate::account::{account_name_valid, is_valid_account_name};
use crate::chain::{FinalizeArgs, FinalizeArgsView, PendingTransferChain, TransferCall, TransferCallView};
use crate::dispatch::{
    chain_result_is, dispatch_native, dispatch_token, native_dispatch, token_dispatch,
    DispatchError,
};
use crate::fees::FRACTIONAL_BASE;
use crate::settlement::{
    finalize, settlement_of, settlement_result_is, CallOutcome, SettlementError, SettlementEvent,
};

verus! {

/// The deposit that must come with an owner's call: one unit of the smallest
/// denomination, which shows that the call was signed with a full-access key.
pub const OWNER_CALL_DEPOSIT: u128 = 1;

/// The state of the contract.
#[derive(Clone, Debug)]
pub struct Contract {
    /// The account that may change the fee and withdraw funds.
    pub owner_id: String,
    /// The fee rate, as a numerator over `FRACTIONAL_BASE`.
    pub fee_numerator: u128,
}

/// Why a contract was not created.
#[derive(Clone, Copy, Debug, PartialEq, Eq, Structural)]
pub enum InitError {
    /// The owner's name is not a valid account id.
    InvalidOwner,
    /// The contract already has a state.
    AlreadyInitialized,
}

/// Why an owner's call was refused.
#[derive(Clone, Copy, Debug, PartialEq, Eq, Structural)]
pub enum AdminError {
    /// The call did not come with a deposit of exactly `OWNER_CALL_DEPOSIT`.
    DepositRequired,
    /// The caller is not the owner.
    NotOwner,
    /// The fee numerator exceeds `FRACTIONAL_BASE`.
    InvalidFee,
}

/// What an incoming token transfer sets off, and the answer that the ledger
/// which sent the notice is given.
#[derive(Clone, Debug)]
pub struct TokenDispatch {
    pub chain: PendingTransferChain,
    /// Always `"0"`: it says nothing about whether the chain will succeed.
    pub acknowledgement: String,
}

/// Whether an owner's call is let through, and if not, why: the deposit is
/// looked at first, then the caller.
pub open spec fn owner_call_check(owner: Seq<char>, caller: Seq<char>, attached_deposit: u128)
    -> Option<AdminError> {
    if attached_deposit != OWNER_CALL_DEPOSIT {
        Some(AdminError::DepositRequired)
    } else if caller != owner {
        Some(AdminError::NotOwner)
    } else {
        None
    }
}

impl Contract {
    /// A contract owned by `owner_id` that charges no fee.
    pub fn new(owner_id: String) -> (contract: Contract)
        requires
            account_name_valid(owner_id@),
        ensures
            contract.owner_id == owner_id,
            contract.fee_numerator == 0,
    {
        Contract { owner_id, fee_numerator: 0 }
    }

    /// Creates the contract where `new` may be called: the owner's name must
    /// be a valid account id, and the contract must not have a state yet. The
    /// owner's name is looked at first.
    pub fn try_new(owner_id: String, state_exists: bool) -> (r: Result<Contract, InitError>)
        ensures
            match r {
                Ok(contract) => account_name_valid(owner_id@) && !state_exists
                    && contract.owner_id == owner_id && contract.fee_numerator == 0,
                Err(InitError::InvalidOwner) => !account_name_valid(owner_id@),
                Err(InitError::AlreadyInitialized) => account_name_valid(owner_id@)
                    && state_exists,
            },
    {
        if !is_valid_account_name(owner_id.as_str()) {
            Err(InitError::InvalidOwner)
        } else if state_exists {
            Err(InitError::AlreadyInitialized)
        } else {
            Ok(Contract::new(owner_id))
        }
    }

    /// The fee numerator in force.
    pub fn get_fee(&self) -> (fee: u128)
        ensures
            fee == self.fee_numerator,
    {
        self.fee_numerator
    }

    /// Tells whether a call by `caller` with `attached_deposit` is an owner's
    /// call.
    fn check_owner_call(&self, caller: &String, attached_deposit: u128) -> (r: Option<AdminError>)
        ensures
            r == owner_call_check(self.owner_id@, caller@, attached_deposit),
    {
        if attached_deposit != OWNER_CALL_DEPOSIT {
            Some(AdminError::DepositRequired)
        } else if *caller != self.owner_id {
            Some(AdminError::NotOwner)
        } else {
            None
        }
    }

    /// Sets the fee numerator. Only the owner may, with the owner's deposit
    /// attached, and only to a numerator up to `FRACTIONAL_BASE`; a refused
    /// call changes nothing.
    pub fn change_fee(&mut self, caller: &String, attached_deposit: u128, new_fee: u128) -> (r:
        Result<(), AdminError>)
        ensures
            final(self).owner_id == old(self).owner_id,
            match r {
                Ok(()) => owner_call_check(old(self).owner_id@, caller@, attached_deposit)
                    is None && new_fee <= FRACTIONAL_BASE && final(self).fee_numerator
                    == new_fee,
                Err(e) => final(self).fee_numerator == old(self).fee_numerator && (
                match owner_call_check(old(self).owner_id@, caller@, attached_deposit) {
                    Some(refusal) => e == refusal,
                    None => e == AdminError::InvalidFee && new_fee > FRACTIONAL_BASE,
                }),
            },
    {
        match self.check_owner_call(caller, attached_deposit) {
            Some(refusal) => Err(refusal),
            None => {
                if new_fee > FRACTIONAL_BASE {
                    Err(AdminError::InvalidFee)
                } else {
                    self.fee_numerator = new_fee;
                    Ok(())
                }
            },
        }
    }

    /// Plans the withdrawal of `quantity` of native currency to the owner.
    /// Only the owner may ask, with the owner's deposit attached.
    pub fn withdraw_funds(&self, caller: &String, attached_deposit: u128, quantity: u128) -> (r:
        Result<TransferCall, AdminError>)
        ensures
            match r {
                Ok(call) => owner_call_check(self.owner_id@, caller@, attached_deposit) is None
                    && call@ == (TransferCallView::Native {
                    destination: self.owner_id@,
                    amount: quantity,
                }),
                Err(e) => owner_call_check(self.owner_id@, caller@, attached_deposit) == Some(e),
            },
    {
        match self.check_owner_call(caller, attached_deposit) {
            Some(refusal) => Err(refusal),
            None => Ok(
                TransferCall::Native { destination: self.owner_id.clone(), amount: quantity },
            ),
        }
    }

    /// Takes a deposit of native currency by `sender` and plans its
    /// forwarding to `receiver` under the fee in force.
    pub fn transfer_payment(&self, sender: String, deposit: u128, receiver: String) -> (r: Result<
        PendingTransferChain,
        DispatchError,
    >)
        ensures
            chain_result_is(r, native_dispatch(sender@, receiver@, deposit, self.fee_numerator)),
    {
        dispatch_native(sender, receiver, deposit, self.fee_numerator)
    }

    /// Takes the notice of the ledger `token` that `sender_id` sent `amount`
    /// of its token with the routing payload `msg`, and plans the forwarding
    /// under the fee in force. The ledger is answered `"0"`.
    pub fn ft_on_transfer(&self, token: String, sender_id: String, amount: u128, msg: &str) -> (r:
        Result<TokenDispatch, DispatchError>)
        ensures
            match r {
                Ok(dispatched) => dispatched.acknowledgement@ == "0"@ && chain_result_is(
                    Ok(dispatched.chain),
                    token_dispatch(token@, sender_id@, msg@, amount, self.fee_numerator),
                ),
                Err(e) => chain_result_is(
                    Err(e),
                    token_dispatch(token@, sender_id@, msg@, amount, self.fee_numerator),
                ),
            },
    {
        match dispatch_token(token, sender_id, msg, amount, self.fee_numerator) {
            Ok(chain) => Ok(TokenDispatch { chain, acknowledgement: "0".to_owned() }),
            Err(e) => Err(e),
        }
    }

    /// The continuation of a chain: from the outcomes that the ledger reports
    /// and the arguments fixed at dispatch, the event to write to the log, or
    /// the reason why nothing is written.
    pub fn log_transfer(
        outcomes: &Vec<CallOutcome>,
        receiver: String,
        burner: String,
        full_amount: u128,
        recipient_share: u128,
        fee_amount: u128,
        burn_amount: u128,
        asset: String,
        sender: String,
    ) -> (r: Result<SettlementEvent, SettlementError>)
        ensures
            settlement_result_is(
                r,
                settlement_of(
                    outcomes@,
                    FinalizeArgsView {
                        receiver: receiver@,
                        burner: burner@,
                        full_amount,
                        recipient_share,
                        fee_amount,
                        burn_amount,
                        asset: asset@,
                        sender: sender@,
                    },
                ),
            ),
    {
        finalize(
            outcomes,
            FinalizeArgs {
                receiver,
                burner,
                full_amount,
                recipient_share,
                fee_amount,
                burn_amount,
                asset,
                sender,
            },
        )
    }
}

} // verus!
