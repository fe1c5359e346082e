//! The ways in which an instruction can be refused.

use vstd::prelude::*;

verus! {

/// Why an instruction was refused. A refused instruction changes nothing.
#[derive(Clone, Copy, Debug, PartialEq, Eq, Structural)]
pub enum YapdotfunError {
    /// A buy named an amount of zero.
    InvalidAmount,
    /// A market with the same description has been initialized before.
    MarketAlreadyExists,
    /// No market is recorded under the given identifier.
    MarketDoesNotExist,
    /// The market no longer accepts buys.
    MarketNotOpen,
    /// The market has not been closed yet, so nothing can be sold.
    MarketNotClosed,
    /// The participant already holds a position in the market.
    PositionAlreadyExists,
    /// The position was taken on the other side of the market.
    PositionMismatch,
    /// The position holds fewer shares than the sale names.
    NotEnoughShares,
    /// A sale named zero shares.
    NoSharesToSell,
    /// A total would have dropped below zero.
    Underflow,
    /// A total would have left the range of a `u64`.
    Overflow,
    /// The transfer of value between participant and market did not go through.
    TransferFailed,
}

impl YapdotfunError {
    /// The sentence that tells a human reader what went wrong.
    pub open spec fn sentence(self) -> Seq<char> {
        match self {
            YapdotfunError::InvalidAmount => "Amount must be greater than 0"@,
            YapdotfunError::MarketAlreadyExists => "Market already exists"@,
            YapdotfunError::MarketDoesNotExist => "Market doesn't exist"@,
            YapdotfunError::MarketNotOpen => "Market has been closed"@,
            YapdotfunError::MarketNotClosed => "Market is not closed"@,
            YapdotfunError::PositionAlreadyExists => "Position already exists"@,
            YapdotfunError::PositionMismatch => "Position is on the other side"@,
            YapdotfunError::NotEnoughShares => "Not enough shares"@,
            YapdotfunError::NoSharesToSell => "No shares to sell"@,
            YapdotfunError::Underflow => "Arithmetic underflow"@,
            YapdotfunError::Overflow => "Arithmetic overflow"@,
            YapdotfunError::TransferFailed => "Transfer failed"@,
        }
    }

    /// The sentence that tells a human reader what went wrong.
    pub fn message(&self) -> (text: String)
        ensures
            text@ == self.sentence(),
    {
        match self {
            YapdotfunError::InvalidAmount => "Amount must be greater than 0".to_owned(),
            YapdotfunError::MarketAlreadyExists => "Market already exists".to_owned(),
            YapdotfunError::MarketDoesNotExist => "Market doesn't exist".to_owned(),
            YapdotfunError::MarketNotOpen => "Market has been closed".to_owned(),
            YapdotfunError::MarketNotClosed => "Market is not closed".to_owned(),
            YapdotfunError::PositionAlreadyExists => "Position already exists".to_owned(),
            YapdotfunError::PositionMismatch => "Position is on the other side".to_owned(),
            YapdotfunError::NotEnoughShares => "Not enough shares".to_owned(),
            YapdotfunError::NoSharesToSell => "No shares to sell".to_owned(),
            YapdotfunError::Underflow => "Arithmetic underflow".to_owned(),
            YapdotfunError::Overflow => "Arithmetic overflow".to_owned(),
            YapdotfunError::TransferFailed => "Transfer failed".to_owned(),
        }
    }
}

} // verus!
