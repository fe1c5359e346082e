//! What the market announces to whoever listens.

use vstd::prelude::*;
use crate::state::market::{MarketId, ParticipantId};

verus! {

/// Announces that a market has been initialized.
#[derive(Debug, PartialEq, Eq)]
pub struct MarketInitializedEvent {
    /// A sentence for human readers.
    pub message: String,
    /// The identifier of the new market.
    pub market_id: MarketId,
    /// Who initialized the market.
    pub initializer: ParticipantId,
}

impl MarketInitializedEvent {
    /// The sentence that every such announcement carries.
    pub open spec fn sentence() -> Seq<char> {
        "New market was initialized!"@
    }

    /// Whether this is the announcement of the market `market_id`, initialized
    /// by `initializer`.
    pub open spec fn announces(self, market_id: MarketId, initializer: ParticipantId) -> bool {
        &&& self.message@ == MarketInitializedEvent::sentence()
        &&& self.market_id == market_id
        &&& self.initializer == initializer
    }

    /// The announcement of the market `market_id`, initialized by `initializer`.
    pub fn new(market_id: MarketId, initializer: ParticipantId) -> (event: MarketInitializedEvent)
        ensures
            event.announces(market_id, initializer),
    {
        MarketInitializedEvent {
            message: "New market was initialized!".to_owned(),
            market_id,
            initializer,
        }
    }
}

/// Announces that a market has been closed. The host sends it; the ledger
/// takes note of it.
#[derive(Debug, PartialEq, Eq)]
pub struct MarketClosedEvent {
    /// A sentence for human readers.
    pub message: String,
    /// The identifier of the market that was closed.
    pub market_id: MarketId,
    /// Who closed the market.
    pub initializer: ParticipantId,
}

} // verus!
