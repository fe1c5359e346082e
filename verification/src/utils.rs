//! Conversion between staked value and shares at a fixed exchange rate.

use vstd::prelude::*;
use crate::errors::YapdotfunError;

verus! {

/// A number of shares.
pub type Shares = u64;

/// An amount of value.
pub type Amount = u64;

/// The exchange rate that is used where no other is chosen: the value that
/// buys one share.
pub const SHARES: u64 = 1000;

/// The shares that `value` buys at `rate`: the quotient, rounded down.
pub open spec fn to_shares(value: nat, rate: nat) -> nat {
    value / rate
}

/// The value that `shares` are redeemed for at `rate`.
pub open spec fn to_value(shares: nat, rate: nat) -> nat {
    shares * rate
}

/// The shares that a stake buys are redeemed for no more than the stake.
pub proof fn lemma_shares_cost_no_more(amount: nat, rate: nat)
    by (nonlinear_arith)
    requires
        rate > 0,
    ensures
        (amount / rate) * rate <= amount,
{
}

/// The value that shares are redeemed for at one rate adds up, and grows with
/// the shares.
pub proof fn lemma_value_of_shares(some: nat, others: nat, rate: nat)
    by (nonlinear_arith)
    ensures
        (some + others) * rate == some * rate + others * rate,
        some <= others ==> some * rate <= others * rate,
        some <= others ==> (others - some) * rate == others * rate - some * rate,
{
}

/// A fixed exchange rate between value and shares. It is never zero.
#[derive(Clone, Copy, Debug, PartialEq, Eq)]
pub struct ExchangeRate {
    per_share: u64,
}

impl View for ExchangeRate {
    type V = nat;

    closed spec fn view(&self) -> nat {
        self.per_share as nat
    }
}

impl ExchangeRate {
    /// A rate is never zero.
    #[verifier::type_invariant]
    pub open spec fn positive(self) -> bool {
        self@ > 0
    }

    /// The rate at which one share costs `per_share`; none for a cost of zero.
    pub fn new(per_share: u64) -> (rate: Option<ExchangeRate>)
        ensures
            per_share == 0 ==> rate is None,
            per_share > 0 ==> rate is Some && rate->0@ == per_share,
    {
        if per_share == 0 {
            None
        } else {
            Some(ExchangeRate { per_share })
        }
    }

    /// The rate of [`SHARES`] per share.
    pub fn standard() -> (rate: ExchangeRate)
        ensures
            rate@ == SHARES,
    {
        ExchangeRate { per_share: SHARES }
    }

    /// The value that buys one share.
    pub fn per_share(&self) -> (value: u64)
        ensures
            value == self@,
            value > 0,
    {
        proof {
            use_type_invariant(self);
        }
        self.per_share
    }
}

/// Says that a transfer of value between a participant and a market did not
/// go through.
#[derive(Clone, Copy, Debug, PartialEq, Eq)]
pub struct TransferError {}

/// Conversion of an amount of value into the shares that it buys.
pub trait IntoShares {
    fn into_shares(self, rate: ExchangeRate) -> Shares;
}

impl IntoShares for Amount {
    fn into_shares(self, rate: ExchangeRate) -> (shares: Shares)
        ensures
            shares == to_shares(self as nat, rate@),
    {
        self / rate.per_share()
    }
}

/// Conversion of a number of shares into the value that they are redeemed for.
pub trait IntoAmount {
    fn into_amount(self, rate: ExchangeRate) -> Result<Amount, YapdotfunError>;
}

impl IntoAmount for Shares {
    fn into_amount(self, rate: ExchangeRate) -> (amount: Result<Amount, YapdotfunError>)
        ensures
            to_value(self as nat, rate@) <= u64::MAX ==> amount == Ok::<Amount, YapdotfunError>(
                to_value(self as nat, rate@) as u64,
            ),
            to_value(self as nat, rate@) > u64::MAX ==> amount == Err::<Amount, YapdotfunError>(
                YapdotfunError::Overflow,
            ),
    {
        match self.checked_mul(rate.per_share()) {
            Some(amount) => Ok(amount),
            None => Err(YapdotfunError::Overflow),
        }
    }
}

} // verus!
