//! The life of one payment, from the incoming trigger to its settlement, as a
//! state machine. The host reports what happened; each step says what state
//! the payment is in now and what the host has to do.

use vstd::prelude::*;
use crate::chain::{FinalizeArgs, FinalizeArgsView, PendingTransferChain, PendingTransferChainView};
use crate::dispatch::{dispatch, dispatch_outcome, DispatchError, Trigger, TriggerView};
use crate::settlement::{
    event_of, finalize, lemma_event_only_on_success, settlement_of, CallOutcome, SettlementError,
    SettlementEvent, SettlementEventView,
};

verus! {

/// Where a payment stands.
#[derive(Clone, Debug)]
pub enum Invocation {
    /// Nothing has been dispatched yet.
    Initiated,
    /// The chain of transfers is with the ledger; `pending` is what its
    /// continuation will be handed.
    Dispatched { pending: FinalizeArgs },
    /// The payment is settled and its event recorded.
    Finalized,
    /// The payment was given up.
    Aborted,
}

/// What the host reports.
#[derive(Clone, Debug)]
pub enum HostEvent {
    /// A payment came in while `fee_numerator` was in force.
    Triggered { trigger: Trigger, fee_numerator: u128 },
    /// The chain has resolved, with these outcomes for the continuation.
    Resolved { outcomes: Vec<CallOutcome> },
}

/// Why a payment was given up.
#[derive(Clone, Copy, Debug, PartialEq, Eq, Structural)]
pub enum AbortReason {
    /// Nothing was dispatched.
    Dispatch(DispatchError),
    /// The chain was dispatched and not settled.
    Settlement(SettlementError),
}

/// What the host has to do after a step.
#[derive(Clone, Debug)]
pub enum Action {
    /// Nothing: the report did not concern the payment in its state.
    Nothing,
    /// Issue the transfers of the chain in order, and attach the continuation
    /// to the last.
    IssueChain { chain: PendingTransferChain },
    /// Append the event to the log.
    RecordEvent { event: SettlementEvent },
    /// Fail the invocation.
    Abort { reason: AbortReason },
}

/// A state as plain values.
pub enum InvocationView {
    Initiated,
    Dispatched { pending: FinalizeArgsView },
    Finalized,
    Aborted,
}

/// A report as plain values.
pub enum HostEventView {
    Triggered { trigger: TriggerView, fee_numerator: u128 },
    Resolved { outcomes: Seq<CallOutcome> },
}

/// An action as plain values.
pub enum ActionView {
    Nothing,
    IssueChain { chain: PendingTransferChainView },
    RecordEvent { event: SettlementEventView },
    Abort { reason: AbortReason },
}

impl View for Invocation {
    type V = InvocationView;

    open spec fn view(&self) -> InvocationView {
        match *self {
            Invocation::Initiated => InvocationView::Initiated,
            Invocation::Dispatched { pending } => InvocationView::Dispatched { pending: pending@ },
            Invocation::Finalized => InvocationView::Finalized,
            Invocation::Aborted => InvocationView::Aborted,
        }
    }
}

impl View for HostEvent {
    type V = HostEventView;

    open spec fn view(&self) -> HostEventView {
        match *self {
            HostEvent::Triggered { trigger, fee_numerator } => HostEventView::Triggered {
                trigger: trigger@,
                fee_numerator,
            },
            HostEvent::Resolved { outcomes } => HostEventView::Resolved { outcomes: outcomes@ },
        }
    }
}

impl View for Action {
    type V = ActionView;

    open spec fn view(&self) -> ActionView {
        match *self {
            Action::Nothing => ActionView::Nothing,
            Action::IssueChain { chain } => ActionView::IssueChain { chain: chain@ },
            Action::RecordEvent { event } => ActionView::RecordEvent { event: event@ },
            Action::Abort { reason } => ActionView::Abort { reason },
        }
    }
}

/// The step of the state machine. A trigger moves a fresh payment to
/// `Dispatched` or, where nothing can be dispatched, to `Aborted`. The
/// resolution of the chain moves a dispatched payment to `Finalized` or
/// `Aborted`. Every other report leaves the state as it is and asks for
/// nothing.
pub open spec fn step_outcome(state: InvocationView, event: HostEventView) -> (
    InvocationView,
    ActionView,
) {
    match (state, event) {
        (InvocationView::Initiated, HostEventView::Triggered { trigger, fee_numerator }) => {
            match dispatch_outcome(trigger, fee_numerator) {
                Ok(chain) => (
                    InvocationView::Dispatched { pending: chain.finalize },
                    ActionView::IssueChain { chain },
                ),
                Err(e) => (
                    InvocationView::Aborted,
                    ActionView::Abort { reason: AbortReason::Dispatch(e) },
                ),
            }
        },
        (InvocationView::Dispatched { pending }, HostEventView::Resolved { outcomes }) => {
            match settlement_of(outcomes, pending) {
                Ok(event) => (InvocationView::Finalized, ActionView::RecordEvent { event }),
                Err(e) => (
                    InvocationView::Aborted,
                    ActionView::Abort { reason: AbortReason::Settlement(e) },
                ),
            }
        },
        _ => (state, ActionView::Nothing),
    }
}

/// A copy of the arguments of a continuation.
fn copy_args(args: &FinalizeArgs) -> (copy: FinalizeArgs)
    ensures
        copy@ == args@,
{
    FinalizeArgs {
        receiver: args.receiver.clone(),
        burner: args.burner.clone(),
        full_amount: args.full_amount,
        recipient_share: args.recipient_share,
        fee_amount: args.fee_amount,
        burn_amount: args.burn_amount,
        asset: args.asset.clone(),
        sender: args.sender.clone(),
    }
}

/// Takes one report of the host: returns the state of the payment after it
/// and what the host has to do.
pub fn step(state: Invocation, event: HostEvent) -> (r: (Invocation, Action))
    ensures
        (r.0@, r.1@) == step_outcome(state@, event@),
{
    match state {
        Invocation::Initiated => match event {
            HostEvent::Triggered { trigger, fee_numerator } => {
                match dispatch(trigger, fee_numerator) {
                    Ok(chain) => {
                        let pending = copy_args(&chain.finalize);
                        (Invocation::Dispatched { pending }, Action::IssueChain { chain })
                    },
                    Err(e) => (
                        Invocation::Aborted,
                        Action::Abort { reason: AbortReason::Dispatch(e) },
                    ),
                }
            },
            HostEvent::Resolved { .. } => (Invocation::Initiated, Action::Nothing),
        },
        Invocation::Dispatched { pending } => match event {
            HostEvent::Resolved { outcomes } => {
                match finalize(&outcomes, pending) {
                    Ok(event) => (Invocation::Finalized, Action::RecordEvent { event }),
                    Err(e) => (
                        Invocation::Aborted,
                        Action::Abort { reason: AbortReason::Settlement(e) },
                    ),
                }
            },
            HostEvent::Triggered { .. } => (Invocation::Dispatched { pending }, Action::Nothing),
        },
        Invocation::Finalized => (Invocation::Finalized, Action::Nothing),
        Invocation::Aborted => (Invocation::Aborted, Action::Nothing),
    }
}

/// The state after a sequence of reports.
pub open spec fn state_after(start: InvocationView, events: Seq<HostEventView>) -> InvocationView
    decreases events.len(),
{
    if events.len() == 0 {
        start
    } else {
        step_outcome(state_after(start, events.drop_last()), events.last()).0
    }
}

/// The number of events that a sequence of reports has recorded.
pub open spec fn events_recorded(start: InvocationView, events: Seq<HostEventView>) -> nat
    decreases events.len(),
{
    if events.len() == 0 {
        0
    } else {
        let before = events_recorded(start, events.drop_last());
        if step_outcome(state_after(start, events.drop_last()), events.last()).1 is RecordEvent {
            before + 1
        } else {
            before
        }
    }
}

/// `Finalized` and `Aborted` are final: no report moves a payment out of
/// them, and none asks for anything there.
pub proof fn lemma_terminal_states_stay(state: InvocationView, event: HostEventView)
    requires
        state is Finalized || state is Aborted,
    ensures
        step_outcome(state, event) == (state, ActionView::Nothing),
{
}

/// A step reaches `Finalized` from another state only from `Dispatched`, on
/// the report of a single successful outcome; that step, and no other,
/// records an event, which is the event of the pending arguments.
pub proof fn lemma_finalized_only_after_success(state: InvocationView, event: HostEventView)
    ensures
        step_outcome(state, event).1 is RecordEvent <==> (state is Dispatched && event
            == HostEventView::Resolved { outcomes: seq![CallOutcome::Successful] }),
        step_outcome(state, event).1 is RecordEvent <==> (!(state is Finalized) && step_outcome(
            state,
            event,
        ).0 is Finalized),
        step_outcome(state, event).1 matches ActionView::RecordEvent { event: recorded }
            ==> state matches InvocationView::Dispatched { pending } && recorded
            == event_of(pending),
{
    if let InvocationView::Dispatched { pending } = state {
        if let HostEventView::Resolved { outcomes } = event {
            lemma_event_only_on_success(outcomes, pending);
            if outcomes =~= seq![CallOutcome::Successful] {
                assert(outcomes == seq![CallOutcome::Successful]);
            }
        }
    }
}

/// A step asks for transfers only where it moves a fresh payment to
/// `Dispatched`: a payment that is aborted, at dispatch or later, never
/// issues a chain in that step, and a chain is issued at most from
/// `Initiated`.
pub proof fn lemma_chain_issued_only_at_dispatch(state: InvocationView, event: HostEventView)
    ensures
        step_outcome(state, event).1 is IssueChain <==> (state is Initiated && step_outcome(
            state,
            event,
        ).0 is Dispatched),
        step_outcome(state, event).1 matches ActionView::IssueChain { chain } ==> step_outcome(
            state,
            event,
        ).0 == (InvocationView::Dispatched { pending: chain.finalize }),
{
}

/// Over any sequence of reports, a payment records one event when it ends in
/// `Finalized` without having started there, and none otherwise; one that
/// starts in a final state stays in it.
pub proof fn lemma_recorded_counts_settlement(start: InvocationView, events: Seq<HostEventView>)
    ensures
        start is Finalized || start is Aborted ==> state_after(start, events) == start,
        events_recorded(start, events) == if state_after(start, events) is Finalized && !(start
            is Finalized) {
            1nat
        } else {
            0nat
        },
    decreases events.len(),
{
    if events.len() > 0 {
        let before = state_after(start, events.drop_last());
        lemma_recorded_counts_settlement(start, events.drop_last());
        lemma_finalized_only_after_success(before, events.last());
        if before is Finalized || before is Aborted {
            lemma_terminal_states_stay(before, events.last());
        }
    }
}

/// Whatever the host reports and in whatever order, a payment that starts
/// fresh records at most one event, and records it exactly when it ends
/// settled.
pub proof fn lemma_at_most_one_event(events: Seq<HostEventView>)
    ensures
        events_recorded(InvocationView::Initiated, events) <= 1,
        events_recorded(InvocationView::Initiated, events) == 1 <==> state_after(
            InvocationView::Initiated,
            events,
        ) is Finalized,
{
    lemma_recorded_counts_settlement(InvocationView::Initiated, events);
}

} // verus!
