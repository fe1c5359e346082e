//! Redeeming shares of a closed market.

use vstd::prelude::*;
use crate::errors::YapdotfunError;
use crate::state::market::{MarketMetadata, MarketStatus, MarketVoter, ParticipantId};
use crate::utils::{
    lemma_value_of_shares,
    to_value,
    Amount,
    ExchangeRate,
    IntoAmount,
    TransferError,
};

verus! {

/// The records that a sale works on. A sale changes this working set and
/// nothing else; the host writes the working set back where the sale went
/// through.
#[derive(Clone, Copy, Debug, PartialEq, Eq)]
pub struct Sell {
    /// The ledger of the market whose shares are sold.
    pub market_metadata: MarketMetadata,
    /// The position that the signer holds in that market, if there is one.
    pub market_voter: Option<MarketVoter>,
    /// The participant who sells, and to whom the proceeds go.
    pub signer: ParticipantId,
    /// The exchange rate in force.
    pub rate: ExchangeRate,
}

impl Sell {
    /// The value that `shares` are redeemed for.
    pub open spec fn value(self, shares: u64) -> nat {
        to_value(shares as nat, self.rate@)
    }

    /// What a sale of `shares` on the side `bet` returns: the value redeemed,
    /// or the first reason, in this order, for which the sale is refused. A
    /// signer without a position holds no shares. `transferred` says whether
    /// the proceeds were moved to the signer.
    pub open spec fn outcome(self, bet: bool, shares: u64, transferred: bool) -> Result<
        Amount,
        YapdotfunError,
    > {
        if shares == 0 {
            Err(YapdotfunError::NoSharesToSell)
        } else if self.market_metadata.status != MarketStatus::Closed {
            Err(YapdotfunError::MarketNotClosed)
        } else if self.market_voter is None {
            Err(YapdotfunError::NotEnoughShares)
        } else if self.market_voter->0.vote != bet {
            Err(YapdotfunError::PositionMismatch)
        } else if self.market_voter->0.shares < shares {
            Err(YapdotfunError::NotEnoughShares)
        } else if self.value(shares) > u64::MAX {
            Err(YapdotfunError::Overflow)
        } else if !self.market_metadata.can_debit(bet, self.value(shares) as u64, shares) {
            Err(YapdotfunError::Underflow)
        } else if !transferred {
            Err(YapdotfunError::TransferFailed)
        } else {
            Ok(self.value(shares) as u64)
        }
    }

    /// The working set after a sale of `shares` on the side `bet` has gone
    /// through: the value redeemed has left the ledger, and the position holds
    /// that many shares fewer.
    pub open spec fn staged(self, bet: bool, shares: u64) -> Sell {
        Sell {
            market_metadata: self.market_metadata.debited(bet, self.value(shares) as u64, shares),
            market_voter: Some(
                MarketVoter {
                    shares: (self.market_voter->0.shares - shares) as u64,
                    ..self.market_voter->0
                },
            ),
            ..self
        }
    }
}

/// What a sale of `shares` on the side `bet` would return if the proceeds
/// were transferred: the value that it would redeem, or why it would be
/// refused.
pub fn quote(ctx: &Sell, bet: bool, shares: u64) -> (result: Result<Amount, YapdotfunError>)
    ensures
        result == ctx.outcome(bet, shares, true),
{
    let mut working = *ctx;
    handler(&mut working, bet, shares, Ok(()))
}

/// Sells `shares` of the side `bet` (`true` for YES) and returns the value
/// redeemed for them. `transfer` says what came of moving the proceeds from
/// the market to the signer. A sale that is refused leaves the working set as
/// it was.
pub fn handler(
    ctx: &mut Sell,
    bet: bool,
    shares: u64,
    transfer: Result<(), TransferError>,
) -> (result: Result<Amount, YapdotfunError>)
    ensures
        result == old(ctx).outcome(bet, shares, transfer is Ok),
        result is Ok ==> *final(ctx) == old(ctx).staged(bet, shares),
        result is Err ==> *final(ctx) == *old(ctx),
        old(ctx).market_metadata.balanced() ==> final(ctx).market_metadata.balanced(),
        old(ctx).market_metadata.backed(old(ctx).rate@) ==> final(ctx).market_metadata.backed(
            old(ctx).rate@,
        ),
{
    proof {
        lemma_value_of_shares(
            shares as nat,
            ctx.market_metadata.side_shares(bet) as nat,
            ctx.rate@,
        );
    }
    if shares == 0 {
        return Err(YapdotfunError::NoSharesToSell);
    }
    if ctx.market_metadata.status != MarketStatus::Closed {
        return Err(YapdotfunError::MarketNotClosed);
    }
    let position = match ctx.market_voter {
        Some(position) => position,
        None => {
            return Err(YapdotfunError::NotEnoughShares);
        },
    };
    if position.vote != bet {
        return Err(YapdotfunError::PositionMismatch);
    }
    if position.shares < shares {
        return Err(YapdotfunError::NotEnoughShares);
    }
    let value = match shares.into_amount(ctx.rate) {
        Ok(value) => value,
        Err(error) => {
            return Err(error);
        },
    };
    let mut ledger = ctx.market_metadata;
    match ledger.debit(bet, value, shares) {
        Ok(()) => {},
        Err(error) => {
            return Err(error);
        },
    }
    if transfer.is_err() {
        return Err(YapdotfunError::TransferFailed);
    }
    ctx.market_metadata = ledger;
    ctx.market_voter = Some(MarketVoter { shares: position.shares - shares, ..position });
    Ok(value)
}

} // verus!
