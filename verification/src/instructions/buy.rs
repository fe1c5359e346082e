//! Taking a position in an open market.

use vstd::prelude::*;
use crate::errors::YapdotfunError;
use crate::state::market::{MarketMetadata, MarketStatus, MarketVoter, ParticipantId};
use crate::utils::{
    lemma_shares_cost_no_more,
    lemma_value_of_shares,
    to_shares,
    ExchangeRate,
    IntoShares,
    Shares,
    TransferError,
};

verus! {

/// The records that a buy works on. A buy changes this working set and nothing
/// else; the host writes the working set back where the buy went through.
#[derive(Clone, Copy, Debug, PartialEq, Eq)]
pub struct Buy {
    /// The ledger of the market in which the position is taken.
    pub market_metadata: MarketMetadata,
    /// The position that the signer holds in that market, if there is one.
    pub market_voter: Option<MarketVoter>,
    /// The participant who buys.
    pub signer: ParticipantId,
    /// The exchange rate in force.
    pub rate: ExchangeRate,
}

impl Buy {
    /// The shares that a stake of `amount` buys.
    pub open spec fn shares(self, amount: u64) -> u64 {
        to_shares(amount as nat, self.rate@) as u64
    }

    /// What a buy of `amount` on the side `bet` returns: the shares issued, or
    /// the first reason, in this order, for which the buy is refused.
    /// `transferred` says whether the stake was moved to the market.
    pub open spec fn outcome(self, bet: bool, amount: u64, transferred: bool) -> Result<
        Shares,
        YapdotfunError,
    > {
        if amount == 0 {
            Err(YapdotfunError::InvalidAmount)
        } else if self.market_metadata.status != MarketStatus::Open {
            Err(YapdotfunError::MarketNotOpen)
        } else if self.market_voter is Some {
            Err(YapdotfunError::PositionAlreadyExists)
        } else if !self.market_metadata.can_credit(bet, amount, self.shares(amount)) {
            Err(YapdotfunError::Overflow)
        } else if !transferred {
            Err(YapdotfunError::TransferFailed)
        } else {
            Ok(self.shares(amount))
        }
    }

    /// The working set after a buy of `amount` on the side `bet` has gone
    /// through: the stake is added to the ledger, and the signer holds a new
    /// position.
    pub open spec fn staged(self, bet: bool, amount: u64) -> Buy {
        Buy {
            market_metadata: self.market_metadata.credited(bet, amount, self.shares(amount)),
            market_voter: Some(
                MarketVoter {
                    market_id: self.market_metadata.market_id,
                    voter: self.signer,
                    vote: bet,
                    amount,
                    shares: self.shares(amount),
                },
            ),
            ..self
        }
    }
}

/// What a buy of `amount` on the side `bet` would return if the stake were
/// transferred: the shares that it would issue, or why it would be refused.
pub fn quote(ctx: &Buy, bet: bool, amount: u64) -> (result: Result<Shares, YapdotfunError>)
    ensures
        result == ctx.outcome(bet, amount, true),
{
    let mut working = *ctx;
    handler(&mut working, bet, amount, Ok(()))
}

/// Stakes `amount` on the side `bet` (`true` for YES) and returns the shares
/// issued for it. `transfer` says what came of moving the stake from the
/// signer to the market. A buy that is refused leaves the working set as it
/// was.
pub fn handler(
    ctx: &mut Buy,
    bet: bool,
    amount: u64,
    transfer: Result<(), TransferError>,
) -> (result: Result<Shares, YapdotfunError>)
    ensures
        result == old(ctx).outcome(bet, amount, transfer is Ok),
        result is Ok ==> *final(ctx) == old(ctx).staged(bet, amount),
        result is Err ==> *final(ctx) == *old(ctx),
        old(ctx).market_metadata.balanced() ==> final(ctx).market_metadata.balanced(),
        old(ctx).market_metadata.backed(old(ctx).rate@) ==> final(ctx).market_metadata.backed(
            old(ctx).rate@,
        ),
{
    proof {
        use_type_invariant(&ctx.rate);
        lemma_shares_cost_no_more(amount as nat, ctx.rate@);
        lemma_value_of_shares(
            ctx.shares(amount) as nat,
            ctx.market_metadata.side_shares(bet) as nat,
            ctx.rate@,
        );
    }
    if amount == 0 {
        return Err(YapdotfunError::InvalidAmount);
    }
    if ctx.market_metadata.status != MarketStatus::Open {
        return Err(YapdotfunError::MarketNotOpen);
    }
    if ctx.market_voter.is_some() {
        return Err(YapdotfunError::PositionAlreadyExists);
    }
    let shares = amount.into_shares(ctx.rate);
    let mut ledger = ctx.market_metadata;
    match ledger.credit(bet, amount, shares) {
        Ok(()) => {},
        Err(error) => {
            return Err(error);
        },
    }
    if transfer.is_err() {
        return Err(YapdotfunError::TransferFailed);
    }
    ctx.market_metadata = ledger;
    ctx.market_voter = Some(
        MarketVoter {
            market_id: ledger.market_id,
            voter: ctx.signer,
            vote: bet,
            amount,
            shares,
        },
    );
    Ok(shares)
}

} // verus!
