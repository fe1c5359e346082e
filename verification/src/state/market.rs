//! A market's description, its ledger and the positions taken in it.

use vstd::prelude::*;
use vstd::utf8::encode_utf8;
use crate::errors::YapdotfunError;

verus! {

/// Identifies a market: the SHA-256 digest of its description.
pub type MarketId = [u8; 32];

/// Identifies a participant, as the host has authenticated them.
pub type ParticipantId = [u8; 32];

/// Whether two identifiers, of markets or of participants, are the same.
pub fn same_id(left: &[u8; 32], right: &[u8; 32]) -> (same: bool)
    ensures
        same == (*left == *right),
{
    let mut at: usize = 0;
    while at < 32
        invariant
            at <= 32,
            forall|k: int| 0 <= k < at ==> left[k] == right[k],
        decreases 32 - at,
    {
        if left[at] != right[at] {
            return false;
        }
        at = at + 1;
    }
    assert(*left =~= *right);
    true
}

/// The longest description that a market can carry, in bytes of UTF-8.
pub const MAX_DESCRIPTION_LEN: usize = 0x200;

/// Whether a market still accepts stakes.
#[derive(Clone, Copy, Debug, PartialEq, Eq, Structural)]
pub enum MarketStatus {
    /// Stakes can be bought; nothing can be sold yet.
    Open,
    /// No stake is accepted any more; shares can be sold.
    Closed,
}

impl Default for MarketStatus {
    /// A market starts out open.
    fn default() -> (status: MarketStatus)
        ensures
            status == MarketStatus::Open,
    {
        MarketStatus::Open
    }
}

/// What a market is about. Nothing of it changes once the market exists.
#[derive(Debug, PartialEq, Eq)]
pub struct Market {
    /// The market's identifier.
    pub market_id: MarketId,
    /// The question that the market asks.
    pub description: String,
    /// Who initialized the market.
    pub initializer: ParticipantId,
    /// When the market was initialized, by the host's clock.
    pub created_at: u64,
    /// When the question is expected to be settled, if that is known.
    pub expected_resolution_date: Option<u64>,
}

impl Market {
    /// The description is no longer than a description can be.
    pub open spec fn wf(self) -> bool {
        encode_utf8(self.description@).len() <= MAX_DESCRIPTION_LEN
    }

    /// Whether a text is short enough to describe a market.
    pub fn fits(description: &str) -> (fits: bool)
        ensures
            fits == (encode_utf8(description@).len() <= MAX_DESCRIPTION_LEN),
    {
        description.as_bytes().len() <= MAX_DESCRIPTION_LEN
    }
}

/// The ledger of one market: what is staked on either side, the shares issued
/// for it, and the pool that both sides pay into.
#[derive(Clone, Copy, Debug, PartialEq, Eq)]
pub struct MarketMetadata {
    /// The market that this ledger belongs to.
    pub market_id: MarketId,
    /// Whether the market is open or closed.
    pub status: MarketStatus,
    /// The value staked on YES.
    pub total_yes_assets: u64,
    /// The value staked on NO.
    pub total_no_assets: u64,
    /// The shares issued for YES.
    pub total_yes_shares: u64,
    /// The shares issued for NO.
    pub total_no_shares: u64,
    /// The value staked on both sides together.
    pub total_rewards: u64,
}

impl MarketMetadata {
    /// The ledger of a market in which nothing has been staked yet.
    pub open spec fn empty(market_id: MarketId) -> MarketMetadata {
        MarketMetadata {
            market_id,
            status: MarketStatus::Open,
            total_yes_assets: 0,
            total_no_assets: 0,
            total_yes_shares: 0,
            total_no_shares: 0,
            total_rewards: 0,
        }
    }

    /// The value staked on one side: on YES for `true`, on NO for `false`.
    pub open spec fn side_assets(self, bet: bool) -> u64 {
        if bet {
            self.total_yes_assets
        } else {
            self.total_no_assets
        }
    }

    /// The shares issued for one side: for YES for `true`, for NO for `false`.
    pub open spec fn side_shares(self, bet: bool) -> u64 {
        if bet {
            self.total_yes_shares
        } else {
            self.total_no_shares
        }
    }

    /// The pool holds exactly what is staked on the two sides.
    pub open spec fn balanced(self) -> bool {
        self.total_rewards == self.total_yes_assets + self.total_no_assets
    }

    /// Every share on either side is backed by the value that it is redeemed
    /// for at `rate`.
    pub open spec fn backed(self, rate: nat) -> bool {
        &&& self.total_yes_shares * rate <= self.total_yes_assets
        &&& self.total_no_shares * rate <= self.total_no_assets
    }

    /// Whether `amount` and `shares` can be added to a side without any total
    /// leaving the range of a `u64`.
    pub open spec fn can_credit(self, bet: bool, amount: u64, shares: u64) -> bool {
        &&& self.side_assets(bet) + amount <= u64::MAX
        &&& self.side_shares(bet) + shares <= u64::MAX
        &&& self.total_rewards + amount <= u64::MAX
    }

    /// The ledger after `amount` and `shares` have been added to a side.
    pub open spec fn credited(self, bet: bool, amount: u64, shares: u64) -> MarketMetadata {
        if bet {
            MarketMetadata {
                total_yes_assets: (self.total_yes_assets + amount) as u64,
                total_yes_shares: (self.total_yes_shares + shares) as u64,
                total_rewards: (self.total_rewards + amount) as u64,
                ..self
            }
        } else {
            MarketMetadata {
                total_no_assets: (self.total_no_assets + amount) as u64,
                total_no_shares: (self.total_no_shares + shares) as u64,
                total_rewards: (self.total_rewards + amount) as u64,
                ..self
            }
        }
    }

    /// Whether `amount` and `shares` can be taken from a side without any
    /// total dropping below zero.
    pub open spec fn can_debit(self, bet: bool, amount: u64, shares: u64) -> bool {
        &&& amount <= self.side_assets(bet)
        &&& shares <= self.side_shares(bet)
        &&& amount <= self.total_rewards
    }

    /// The ledger after `amount` and `shares` have been taken from a side.
    pub open spec fn debited(self, bet: bool, amount: u64, shares: u64) -> MarketMetadata {
        if bet {
            MarketMetadata {
                total_yes_assets: (self.total_yes_assets - amount) as u64,
                total_yes_shares: (self.total_yes_shares - shares) as u64,
                total_rewards: (self.total_rewards - amount) as u64,
                ..self
            }
        } else {
            MarketMetadata {
                total_no_assets: (self.total_no_assets - amount) as u64,
                total_no_shares: (self.total_no_shares - shares) as u64,
                total_rewards: (self.total_rewards - amount) as u64,
                ..self
            }
        }
    }

    /// The ledger with which a market starts: open, and every total zero.
    pub fn new(market_id: MarketId) -> (ledger: MarketMetadata)
        ensures
            ledger == MarketMetadata::empty(market_id),
    {
        MarketMetadata {
            market_id,
            status: MarketStatus::Open,
            total_yes_assets: 0,
            total_no_assets: 0,
            total_yes_shares: 0,
            total_no_shares: 0,
            total_rewards: 0,
        }
    }

    /// Adds a stake of `amount`, for which `shares` are issued, to the side
    /// `bet`. Where a total would overflow, nothing is changed.
    pub fn credit(&mut self, bet: bool, amount: u64, shares: u64) -> (done: Result<
        (),
        YapdotfunError,
    >)
        ensures
            old(self).can_credit(bet, amount, shares) ==> done is Ok && *final(self) == old(
                self,
            ).credited(bet, amount, shares),
            !old(self).can_credit(bet, amount, shares) ==> done == Err::<(), YapdotfunError>(
                YapdotfunError::Overflow,
            ) && *final(self) == *old(self),
    {
        let side_assets = if bet {
            self.total_yes_assets
        } else {
            self.total_no_assets
        };
        let side_shares = if bet {
            self.total_yes_shares
        } else {
            self.total_no_shares
        };
        let assets = match side_assets.checked_add(amount) {
            Some(sum) => sum,
            None => return Err(YapdotfunError::Overflow),
        };
        let issued = match side_shares.checked_add(shares) {
            Some(sum) => sum,
            None => return Err(YapdotfunError::Overflow),
        };
        let rewards = match self.total_rewards.checked_add(amount) {
            Some(sum) => sum,
            None => return Err(YapdotfunError::Overflow),
        };
        if bet {
            self.total_yes_assets = assets;
            self.total_yes_shares = issued;
        } else {
            self.total_no_assets = assets;
            self.total_no_shares = issued;
        }
        self.total_rewards = rewards;
        Ok(())
    }

    /// Takes `amount`, for which `shares` are handed back, from the side `bet`.
    /// Where a total would drop below zero, nothing is changed.
    pub fn debit(&mut self, bet: bool, amount: u64, shares: u64) -> (done: Result<
        (),
        YapdotfunError,
    >)
        ensures
            old(self).can_debit(bet, amount, shares) ==> done is Ok && *final(self) == old(
                self,
            ).debited(bet, amount, shares),
            !old(self).can_debit(bet, amount, shares) ==> done == Err::<(), YapdotfunError>(
                YapdotfunError::Underflow,
            ) && *final(self) == *old(self),
    {
        let side_assets = if bet {
            self.total_yes_assets
        } else {
            self.total_no_assets
        };
        let side_shares = if bet {
            self.total_yes_shares
        } else {
            self.total_no_shares
        };
        let assets = match side_assets.checked_sub(amount) {
            Some(rest) => rest,
            None => return Err(YapdotfunError::Underflow),
        };
        let issued = match side_shares.checked_sub(shares) {
            Some(rest) => rest,
            None => return Err(YapdotfunError::Underflow),
        };
        let rewards = match self.total_rewards.checked_sub(amount) {
            Some(rest) => rest,
            None => return Err(YapdotfunError::Underflow),
        };
        if bet {
            self.total_yes_assets = assets;
            self.total_yes_shares = issued;
        } else {
            self.total_no_assets = assets;
            self.total_no_shares = issued;
        }
        self.total_rewards = rewards;
        Ok(())
    }
}

/// The position of one participant in one market.
#[derive(Clone, Copy, Debug, PartialEq, Eq)]
pub struct MarketVoter {
    /// The market in which the position was taken.
    pub market_id: MarketId,
    /// The participant who holds the position.
    pub voter: ParticipantId,
    /// The side of the position: `true` for YES, `false` for NO.
    pub vote: bool,
    /// The value that was staked when the position was taken.
    pub amount: u64,
    /// The shares that the position still holds.
    pub shares: u64,
}

} // verus!
