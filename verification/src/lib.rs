//! Fee-splitting payment settlement: the arithmetic that divides a payment
//! between recipient, fee and burn, the plan of transfers that forwards the
//! shares, and the rule that turns the outcome of the last transfer into a
//! settlement event.

pub mod account;
pub mod chain;
pub mod contract;
pub mod dispatch;
pub mod fees;
pub mod lifecycle;
pub mod payload;
pub mod settlement;
