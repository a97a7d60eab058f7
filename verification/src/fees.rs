//! The fee calculator: how a gross amount is divided into the recipient's
//! share, the fee and the burn.

use vstd::prelude::*;

verus! {

/// Denominator of every rate: a numerator `n` stands for the fraction
/// `n / FRACTIONAL_BASE`.
pub const FRACTIONAL_BASE: u128 = 10_000;

/// The three parts of a gross amount.
#[derive(Clone, Copy, Debug, PartialEq, Eq, Structural)]
pub struct SplitResult {
    pub recipient_share: u128,
    pub fee_share: u128,
    pub burn_share: u128,
}

/// Why a split was refused.
#[derive(Clone, Copy, Debug, PartialEq, Eq, Structural)]
pub enum SplitError {
    /// The fee and burn numerators together exceed `FRACTIONAL_BASE`.
    InvalidSchedule,
    /// A product of the gross amount and a numerator does not fit in 128 bits.
    Overflow,
}

/// A fee and a burn numerator that leave a non-negative rate for the recipient.
pub open spec fn schedule_valid(fee_numerator: u128, burn_numerator: u128) -> bool {
    fee_numerator + burn_numerator <= FRACTIONAL_BASE
}

/// The numerator of the rate that the recipient keeps.
pub open spec fn kept_numerator(fee_numerator: u128, burn_numerator: u128) -> int {
    FRACTIONAL_BASE - fee_numerator - burn_numerator
}

/// Both products that the split forms fit in 128 bits.
pub open spec fn products_fit(gross: u128, fee_numerator: u128, burn_numerator: u128) -> bool {
    &&& gross * kept_numerator(fee_numerator, burn_numerator) <= u128::MAX
    &&& gross * burn_numerator <= u128::MAX
}

/// The recipient's share: the kept rate applied to the gross amount, rounded down.
pub open spec fn recipient_share_of(gross: u128, fee_numerator: u128, burn_numerator: u128) -> int {
    (gross * kept_numerator(fee_numerator, burn_numerator)) / (FRACTIONAL_BASE as int)
}

/// The burn: the burn rate applied to the gross amount, rounded down.
pub open spec fn burn_share_of(gross: u128, burn_numerator: u128) -> int {
    (gross * burn_numerator) / (FRACTIONAL_BASE as int)
}

/// The fee: whatever the other two shares leave of the gross amount, so that
/// what rounding takes from them goes to the fee.
pub open spec fn fee_share_of(gross: u128, fee_numerator: u128, burn_numerator: u128) -> int {
    gross - recipient_share_of(gross, fee_numerator, burn_numerator) - burn_share_of(
        gross,
        burn_numerator,
    )
}

/// What `split` returns, for every input.
pub open spec fn split_outcome(gross: u128, fee_numerator: u128, burn_numerator: u128) -> Result<
    SplitResult,
    SplitError,
> {
    if !schedule_valid(fee_numerator, burn_numerator) {
        Err(SplitError::InvalidSchedule)
    } else if !products_fit(gross, fee_numerator, burn_numerator) {
        Err(SplitError::Overflow)
    } else {
        Ok(
            SplitResult {
                recipient_share: recipient_share_of(gross, fee_numerator, burn_numerator) as u128,
                fee_share: fee_share_of(gross, fee_numerator, burn_numerator) as u128,
                burn_share: burn_share_of(gross, burn_numerator) as u128,
            },
        )
    }
}

/// Under a valid schedule no share is negative and none exceeds the gross
/// amount, and the recipient's share and the burn together do not exceed it.
pub proof fn lemma_shares_in_range(gross: u128, fee_numerator: u128, burn_numerator: u128)
    requires
        schedule_valid(fee_numerator, burn_numerator),
    ensures
        0 <= recipient_share_of(gross, fee_numerator, burn_numerator) <= gross,
        0 <= burn_share_of(gross, burn_numerator) <= gross,
        0 <= fee_share_of(gross, fee_numerator, burn_numerator) <= gross,
        recipient_share_of(gross, fee_numerator, burn_numerator) + burn_share_of(
            gross,
            burn_numerator,
        ) <= gross,
{
    let g = gross as int;
    let k = kept_numerator(fee_numerator, burn_numerator);
    let b = burn_numerator as int;
    let base = FRACTIONAL_BASE as int;
    assert(0 <= k && 0 <= b && k + b <= base);
    lemma_floor_parts(g, k, b, base);
}

/// For a non-negative `g` and parts `k`, `b` of a positive `base`, the rounded
/// down quotients of `g * k` and `g * b` by `base` are non-negative and sum to
/// at most `g`.
proof fn lemma_floor_parts(g: int, k: int, b: int, base: int)
    by (nonlinear_arith)
    requires
        0 <= g,
        0 <= k,
        0 <= b,
        k + b <= base,
        0 < base,
    ensures
        0 <= (g * k) / base,
        0 <= (g * b) / base,
        (g * k) / base + (g * b) / base <= g,
{
    let qk = (g * k) / base;
    let qb = (g * b) / base;
    assert(qk * base <= g * k);
    assert(qb * base <= g * b);
    assert((qk + qb) * base <= g * (k + b));
    assert(g * (k + b) <= g * base);
    assert((qk + qb) * base <= g * base);
}

/// Divides `gross` into the recipient's share, the fee and the burn.
///
/// The recipient keeps the rate that the two numerators leave, the burn takes
/// the burn rate, both rounded down, and the fee is the rest. A schedule whose
/// numerators exceed the base together is refused, and so is a gross amount
/// whose product with a numerator leaves 128 bits.
pub fn split(gross: u128, fee_numerator: u128, burn_numerator: u128) -> (r: Result<
    SplitResult,
    SplitError,
>)
    ensures
        r == split_outcome(gross, fee_numerator, burn_numerator),
        r matches Ok(s) ==> s.recipient_share + s.fee_share + s.burn_share == gross,
{
    if fee_numerator > FRACTIONAL_BASE || burn_numerator > FRACTIONAL_BASE - fee_numerator {
        return Err(SplitError::InvalidSchedule);
    }
    let kept: u128 = FRACTIONAL_BASE - fee_numerator - burn_numerator;
    let kept_product: u128 = match gross.checked_mul(kept) {
        Some(p) => p,
        None => {
            return Err(SplitError::Overflow);
        },
    };
    let burn_product: u128 = match gross.checked_mul(burn_numerator) {
        Some(p) => p,
        None => {
            return Err(SplitError::Overflow);
        },
    };
    let recipient_share: u128 = kept_product / FRACTIONAL_BASE;
    let burn_share: u128 = burn_product / FRACTIONAL_BASE;
    proof {
        lemma_shares_in_range(gross, fee_numerator, burn_numerator);
    }
    let fee_share: u128 = gross - recipient_share - burn_share;
    Ok(SplitResult { recipient_share, fee_share, burn_share })
}

/// The split of a native transfer: one fee, nothing burnt.
pub open spec fn native_split_outcome(gross: u128, fee_numerator: u128) -> Result<
    SplitResult,
    SplitError,
> {
    split_outcome(gross, fee_numerator, 0)
}

/// The split of a token transfer: the burn rate equals the fee rate, so the
/// recipient's share is reduced by the fee rate twice.
pub open spec fn token_split_outcome(gross: u128, fee_numerator: u128) -> Result<
    SplitResult,
    SplitError,
> {
    if fee_numerator > FRACTIONAL_BASE {
        Err(SplitError::InvalidSchedule)
    } else {
        split_outcome(gross, fee_numerator, fee_numerator)
    }
}

/// Splits the gross amount of a native transfer: the fee rate is taken once
/// and nothing is burnt.
pub fn split_native(gross: u128, fee_numerator: u128) -> (r: Result<SplitResult, SplitError>)
    ensures
        r == native_split_outcome(gross, fee_numerator),
        r matches Ok(s) ==> s.burn_share == 0 && s.recipient_share + s.fee_share == gross,
{
    split(gross, fee_numerator, 0)
}

/// Splits the gross amount of a token transfer: the fee rate is taken for the
/// fee and once more for the burn.
pub fn split_token(gross: u128, fee_numerator: u128) -> (r: Result<SplitResult, SplitError>)
    ensures
        r == token_split_outcome(gross, fee_numerator),
        r matches Ok(s) ==> s.recipient_share + s.fee_share + s.burn_share == gross,
{
    if fee_numerator > FRACTIONAL_BASE {
        return Err(SplitError::InvalidSchedule);
    }
    split(gross, fee_numerator, fee_numerator)
}

/// A split succeeds exactly on a valid schedule whose products fit, and then
/// its three shares add up to the gross amount: nothing is lost to rounding.
pub proof fn lemma_split_conserves(gross: u128, fee_numerator: u128, burn_numerator: u128)
    ensures
        split_outcome(gross, fee_numerator, burn_numerator) is Ok <==> schedule_valid(
            fee_numerator,
            burn_numerator,
        ) && products_fit(gross, fee_numerator, burn_numerator),
        split_outcome(gross, fee_numerator, burn_numerator) matches Ok(s) ==> s.recipient_share
            + s.fee_share + s.burn_share == gross,
{
    if schedule_valid(fee_numerator, burn_numerator) {
        lemma_shares_in_range(gross, fee_numerator, burn_numerator);
    }
}

/// In the native flow, for every fee numerator up to the base and every gross
/// amount whose product with the kept numerator fits in 128 bits, the split
/// succeeds, burns nothing, and the recipient's share and the fee add up to
/// the gross amount.
pub proof fn lemma_native_split_conserves(gross: u128, fee_numerator: u128)
    requires
        fee_numerator <= FRACTIONAL_BASE,
        gross * (FRACTIONAL_BASE - fee_numerator) <= u128::MAX,
    ensures
        native_split_outcome(gross, fee_numerator) matches Ok(s) && s.burn_share == 0
            && s.recipient_share + s.fee_share == gross,
{
    lemma_shares_in_range(gross, fee_numerator, 0);
    assert(gross * 0 == 0) by (nonlinear_arith);
}

/// In the token flow, for every fee numerator up to half the base and every
/// gross amount whose products fit in 128 bits, the split succeeds and the
/// three shares add up to the gross amount.
pub proof fn lemma_token_split_conserves(gross: u128, fee_numerator: u128)
    requires
        2 * fee_numerator <= FRACTIONAL_BASE,
        gross * (FRACTIONAL_BASE - 2 * fee_numerator) <= u128::MAX,
        gross * fee_numerator <= u128::MAX,
    ensures
        token_split_outcome(gross, fee_numerator) matches Ok(s) && s.recipient_share + s.fee_share
            + s.burn_share == gross,
{
    lemma_shares_in_range(gross, fee_numerator, fee_numerator);
}

/// A fee numerator of zero gives the recipient the whole gross amount, in
/// either flow, wherever the product with the base fits in 128 bits.
pub proof fn lemma_zero_fee_keeps_all(gross: u128)
    requires
        gross * FRACTIONAL_BASE <= u128::MAX,
    ensures
        native_split_outcome(gross, 0) == Ok::<SplitResult, SplitError>(
            SplitResult { recipient_share: gross, fee_share: 0, burn_share: 0 },
        ),
        token_split_outcome(gross, 0) == Ok::<SplitResult, SplitError>(
            SplitResult { recipient_share: gross, fee_share: 0, burn_share: 0 },
        ),
{
    assert(gross * 0 == 0) by (nonlinear_arith);
    assert((gross * 10_000) / 10_000 == gross) by (nonlinear_arith);
}

/// In the native flow a fee numerator equal to the base gives the whole gross
/// amount to the fee, for every gross amount.
pub proof fn lemma_full_fee_takes_all(gross: u128)
    ensures
        native_split_outcome(gross, FRACTIONAL_BASE) == Ok::<SplitResult, SplitError>(
            SplitResult { recipient_share: 0, fee_share: gross, burn_share: 0 },
        ),
{
    assert(gross * 0 == 0) by (nonlinear_arith);
}

/// Two splits of the same inputs are the same: the outcome depends on the
/// gross amount and the two numerators alone.
pub proof fn lemma_split_deterministic(
    first: Result<SplitResult, SplitError>,
    second: Result<SplitResult, SplitError>,
    gross: u128,
    fee_numerator: u128,
    burn_numerator: u128,
)
    requires
        first == split_outcome(gross, fee_numerator, burn_numerator),
        second == split_outcome(gross, fee_numerator, burn_numerator),
    ensures
        first == second,
{
}

} // verus!
