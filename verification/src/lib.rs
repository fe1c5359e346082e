//! Accounting core of a binary-outcome prediction market.
//!
//! Value staked on the YES or the NO side of a market is converted into shares
//! at a fixed exchange rate, the totals of every market are kept per side, and
//! shares are later converted back into value.
//!
//! The store keeps the markets, their ledgers and the positions. Moving value
//! between a participant and a market is the host's work: the host asks for a
//! quote, moves the value, and then hands the instruction what came of it.

pub mod errors;
pub mod events;
pub mod instructions;
pub mod laws;
pub mod model;
pub mod state;
pub mod utils;

use vstd::prelude::*;
use vstd::utf8::encode_utf8;
use crate::errors::YapdotfunError;
use crate::events::{MarketClosedEvent, MarketInitializedEvent};
use crate::instructions::buy::Buy;
use crate::instructions::initialize_market::{
    derive_market_id,
    market_id_for,
    InitializeMarket,
};
use crate::instructions::sell::Sell;
use crate::model::LedgerState;
use crate::state::market::{
    same_id,
    Market,
    MarketId,
    MarketMetadata,
    MarketStatus,
    MarketVoter,
    ParticipantId,
    MAX_DESCRIPTION_LEN,
};
use crate::utils::{Amount, ExchangeRate, Shares, TransferError};

verus! {

/// The ledger store: every market with its ledger, and every position, each
/// found by its identifiers.
pub struct LedgerStore {
    rate: ExchangeRate,
    markets: Vec<Market>,
    ledgers: Vec<MarketMetadata>,
    positions: Vec<MarketVoter>,
}

impl View for LedgerStore {
    type V = LedgerState;

    closed spec fn view(&self) -> LedgerState {
        LedgerState {
            rate: self.rate,
            markets: self.markets@,
            ledgers: self.ledgers@,
            positions: self.positions@,
        }
    }
}

impl LedgerStore {
    #[verifier::type_invariant]
    spec fn inv(self) -> bool {
        self@.wf()
    }

    /// A store in which nothing is recorded, with the given exchange rate.
    pub fn with_rate(rate: ExchangeRate) -> (store: LedgerStore)
        ensures
            store@ == LedgerState::empty(rate),
            store@.wf(),
    {
        proof {
            use_type_invariant(&rate);
        }
        LedgerStore { rate, markets: Vec::new(), ledgers: Vec::new(), positions: Vec::new() }
    }

    /// The exchange rate of the store.
    pub fn rate(&self) -> (rate: ExchangeRate)
        ensures
            rate == self@.rate,
    {
        self.rate
    }


    /// A store in which nothing is recorded, with the standard exchange rate.
    pub fn new() -> (store: LedgerStore)
        ensures
            store@ == LedgerState::empty(store@.rate),
            store@.rate@ == utils::SHARES,
            store@.wf(),
    {
        LedgerStore::with_rate(ExchangeRate::standard())
    }

    /// The description of the market `market_id`, if it is recorded.
    pub fn market(&self, market_id: &MarketId) -> (found: Option<&Market>)
        ensures
            found is Some <==> self@.has_market(*market_id),
            found matches Some(market) ==> *market == self@.market(*market_id),
    {
        proof {
            use_type_invariant(self);
        }
        match self.find_market(market_id) {
            Some(at) => Some(&self.markets[at]),
            None => None,
        }
    }

    /// The ledger of the market `market_id`, if it is recorded.
    pub fn market_metadata(&self, market_id: &MarketId) -> (found: Option<MarketMetadata>)
        ensures
            found is Some <==> self@.has_market(*market_id),
            found matches Some(ledger) ==> ledger == self@.ledger(*market_id),
    {
        match self.find_market(market_id) {
            Some(at) => Some(self.ledgers[at]),
            None => None,
        }
    }

    /// The position of `voter` in the market `market_id`, if there is one.
    pub fn market_voter(&self, market_id: &MarketId, voter: &ParticipantId) -> (found: Option<
        MarketVoter,
    >)
        ensures
            found == self@.position(*market_id, *voter),
    {
        match self.find_position(market_id, voter) {
            Some(at) => Some(self.positions[at]),
            None => None,
        }
    }

    /// The place of the market `market_id`, if it is recorded.
    fn find_market(&self, market_id: &MarketId) -> (found: Option<usize>)
        ensures
            found is Some <==> self@.has_market(*market_id),
            found matches Some(at) ==> at < self@.ledgers.len() && at == self@.market_index(
                *market_id,
            ),
    {
        proof {
            use_type_invariant(self);
        }
        let mut at: usize = 0;
        while at < self.ledgers.len()
            invariant
                at <= self.ledgers.len(),
                self@.ledgers == self.ledgers@,
                self@.wf(),
                forall|before: int|
                    0 <= before < at ==> (#[trigger] self.ledgers@[before]).market_id != *market_id,
            decreases self.ledgers.len() - at,
        {
            if same_id(&self.ledgers[at].market_id, market_id) {
                proof {
                    self@.lemma_market_found(*market_id, at as int);
                }
                return Some(at);
            }
            at = at + 1;
        }
        None
    }

    /// The place of the position of `voter` in the market `market_id`, if
    /// there is one.
    fn find_position(&self, market_id: &MarketId, voter: &ParticipantId) -> (found: Option<usize>)
        ensures
            found is Some <==> self@.has_position(*market_id, *voter),
            found matches Some(at) ==> at < self@.positions.len() && at == self@.position_index(
                *market_id,
                *voter,
            ),
    {
        proof {
            use_type_invariant(self);
        }
        let mut at: usize = 0;
        while at < self.positions.len()
            invariant
                at <= self.positions.len(),
                self@.positions == self.positions@,
                self@.wf(),
                forall|before: int|
                    0 <= before < at ==> !self@.held_by(before, *market_id, *voter),
            decreases self.positions.len() - at,
        {
            if same_id(&self.positions[at].market_id, market_id) && same_id(
                &self.positions[at].voter,
                voter,
            ) {
                proof {
                    self@.lemma_position_found(*market_id, *voter, at as int);
                }
                return Some(at);
            }
            at = at + 1;
        }
        None
    }

    /// The records that a buy of `signer` works on, with the place of the
    /// market; none where the market is not recorded.
    fn buy_context(&self, market_id: &MarketId, signer: &ParticipantId) -> (found: Option<
        (usize, Buy),
    >)
        ensures
            found is Some <==> self@.has_market(*market_id),
            found matches Some((at, ctx)) ==> at == self@.market_index(*market_id) && at
                < self@.ledgers.len() && ctx == self@.buy_context(*market_id, *signer),
    {
        let at = match self.find_market(market_id) {
            Some(at) => at,
            None => {
                return None;
            },
        };
        let market_voter = match self.find_position(market_id, signer) {
            Some(held) => Some(self.positions[held]),
            None => None,
        };
        let market_metadata = self.ledgers[at];
        Some((at, Buy { market_metadata, market_voter, signer: *signer, rate: self.rate }))
    }

    /// The records that a sale of `signer` works on, with the place of the
    /// market and that of the position, if there is one; none where the
    /// market is not recorded.
    fn sell_context(&self, market_id: &MarketId, signer: &ParticipantId) -> (found: Option<
        (usize, Option<usize>, Sell),
    >)
        ensures
            found is Some <==> self@.has_market(*market_id),
            found matches Some((at, held, ctx)) ==> at == self@.market_index(*market_id) && at
                < self@.ledgers.len() && ctx == self@.sell_context(*market_id, *signer) && (
            held is Some <==> self@.has_position(*market_id, *signer)) && (held matches Some(place)
                ==> place == self@.position_index(*market_id, *signer) && place
                < self@.positions.len()),
    {
        let at = match self.find_market(market_id) {
            Some(at) => at,
            None => {
                return None;
            },
        };
        let held = self.find_position(market_id, signer);
        let market_voter = match held {
            Some(place) => Some(self.positions[place]),
            None => None,
        };
        let market_metadata = self.ledgers[at];
        Some((at, held, Sell { market_metadata, market_voter, signer: *signer, rate: self.rate }))
    }

    /// Takes everything out of the store and leaves it empty.
    fn take(&mut self) -> (taken: (Vec<Market>, Vec<MarketMetadata>, Vec<MarketVoter>))
        ensures
            taken.0@ == old(self)@.markets,
            taken.1@ == old(self)@.ledgers,
            taken.2@ == old(self)@.positions,
            final(self)@ == LedgerState::empty(old(self)@.rate),
    {
        proof {
            use_type_invariant(&*self);
        }
        let mut taken = LedgerStore::with_rate(self.rate);
        core::mem::swap(self, &mut taken);
        let LedgerStore { rate: _, markets, ledgers, positions } = taken;
        (markets, ledgers, positions)
    }

    /// Puts the given records into the store in place of what it holds.
    fn put(
        &mut self,
        markets: Vec<Market>,
        ledgers: Vec<MarketMetadata>,
        positions: Vec<MarketVoter>,
    )
        requires
            (LedgerState {
                rate: old(self)@.rate,
                markets: markets@,
                ledgers: ledgers@,
                positions: positions@,
            }).wf(),
        ensures
            final(self)@ == (LedgerState {
                rate: old(self)@.rate,
                markets: markets@,
                ledgers: ledgers@,
                positions: positions@,
            }),
    {
        *self = LedgerStore { rate: self.rate, markets, ledgers, positions };
    }
}

/// Initializes the market with the given description, which is recorded under
/// the digest of the description with an open, empty ledger, and returns the
/// announcement of the new market. Fails with `MarketAlreadyExists`, and
/// changes nothing, where a market with that description exists already.
pub fn initialize_market(
    store: &mut LedgerStore,
    description: String,
    initializer: ParticipantId,
    created_at: u64,
    expected_resolution_date: Option<u64>,
) -> (result: Result<MarketInitializedEvent, YapdotfunError>)
    requires
        encode_utf8(description@).len() <= MAX_DESCRIPTION_LEN,
    ensures
        match result {
            Ok(event) => old(store)@.initialize_result(market_id_for(description@)) is Ok
                && event.announces(market_id_for(description@), initializer),
            Err(error) => old(store)@.initialize_result(market_id_for(description@)) == Err::<
                (),
                YapdotfunError,
            >(error),
        },
        final(store)@ == old(store)@.after_initialize(
            Market {
                market_id: market_id_for(description@),
                description,
                initializer,
                created_at,
                expected_resolution_date,
            },
        ),
        final(store)@.wf(),
{
    proof {
        use_type_invariant(&*store);
    }
    let market_id = derive_market_id(description.as_str());
    if store.find_market(&market_id).is_some() {
        return Err(YapdotfunError::MarketAlreadyExists);
    }
    let mut ctx = InitializeMarket {
        market_id,
        market: None,
        market_metadata: None,
        signer: initializer,
    };
    let event = match instructions::initialize_market::handler(
        &mut ctx,
        description,
        created_at,
        expected_resolution_date,
    ) {
        Ok(event) => event,
        Err(error) => {
            return Err(error);
        },
    };
    let market = ctx.market.unwrap();
    let ledger = ctx.market_metadata.unwrap();
    proof {
        old(store)@.lemma_initialize_keeps_wf(market);
    }
    let (mut markets, mut ledgers, positions) = store.take();
    markets.push(market);
    ledgers.push(ledger);
    store.put(markets, ledgers, positions);
    Ok(event)
}

/// Takes note that the market named in `event` has been closed: from now on
/// it accepts no buy, and its shares can be sold. Fails with
/// `MarketDoesNotExist`, and changes nothing, where no such market is recorded.
pub fn close_market(store: &mut LedgerStore, event: &MarketClosedEvent) -> (result: Result<
    (),
    YapdotfunError,
>)
    ensures
        result == old(store)@.close_result(event.market_id),
        final(store)@ == old(store)@.after_close(event.market_id),
        final(store)@.wf(),
{
    proof {
        use_type_invariant(&*store);
    }
    let at = match store.find_market(&event.market_id) {
        Some(at) => at,
        None => {
            return Err(YapdotfunError::MarketDoesNotExist);
        },
    };
    proof {
        old(store)@.lemma_close_keeps_wf(event.market_id);
    }
    let (markets, mut ledgers, positions) = store.take();
    let ledger = ledgers[at];
    ledgers.set(at, MarketMetadata { status: MarketStatus::Closed, ..ledger });
    store.put(markets, ledgers, positions);
    Ok(())
}

/// What a buy would return if the stake were transferred: the shares that it
/// would issue, or why it would be refused. Nothing is changed.
pub fn quote_buy(
    store: &LedgerStore,
    market_id: MarketId,
    signer: ParticipantId,
    bet: bool,
    amount: u64,
) -> (result: Result<Shares, YapdotfunError>)
    ensures
        result == store@.buy_result(market_id, signer, bet, amount, true),
{
    match store.buy_context(&market_id, &signer) {
        Some((_, ctx)) => instructions::buy::quote(&ctx, bet, amount),
        None => Err(YapdotfunError::MarketDoesNotExist),
    }
}

/// Stakes `amount` of `signer` on the side `bet` (`true` for YES) of the
/// market `market_id`, and returns the shares issued. `transfer` says what
/// came of moving the stake from the participant to the market. A buy that is
/// refused, for whatever reason, changes nothing.
pub fn buy(
    store: &mut LedgerStore,
    market_id: MarketId,
    signer: ParticipantId,
    bet: bool,
    amount: u64,
    transfer: Result<(), TransferError>,
) -> (result: Result<Shares, YapdotfunError>)
    ensures
        result == old(store)@.buy_result(market_id, signer, bet, amount, transfer is Ok),
        final(store)@ == old(store)@.after_buy(market_id, signer, bet, amount, transfer is Ok),
        final(store)@.wf(),
{
    proof {
        use_type_invariant(&*store);
    }
    let (at, mut ctx) = match store.buy_context(&market_id, &signer) {
        Some(found) => found,
        None => {
            return Err(YapdotfunError::MarketDoesNotExist);
        },
    };
    let shares = match instructions::buy::handler(&mut ctx, bet, amount, transfer) {
        Ok(shares) => shares,
        Err(error) => {
            return Err(error);
        },
    };
    let position = ctx.market_voter.unwrap();
    proof {
        old(store)@.lemma_buy_keeps_wf(market_id, signer, bet, amount, true);
    }
    let (markets, mut ledgers, mut positions) = store.take();
    ledgers.set(at, ctx.market_metadata);
    positions.push(position);
    store.put(markets, ledgers, positions);
    Ok(shares)
}

/// What a sale would return if the proceeds were transferred: the value that
/// it would redeem, or why it would be refused. Nothing is changed.
pub fn quote_sell(
    store: &LedgerStore,
    market_id: MarketId,
    signer: ParticipantId,
    bet: bool,
    shares: u64,
) -> (result: Result<Amount, YapdotfunError>)
    ensures
        result == store@.sell_result(market_id, signer, bet, shares, true),
{
    match store.sell_context(&market_id, &signer) {
        Some((_, _, ctx)) => instructions::sell::quote(&ctx, bet, shares),
        None => Err(YapdotfunError::MarketDoesNotExist),
    }
}

/// Sells `shares` that `signer` holds on the side `bet` (`true` for YES) of the
/// market `market_id`, and returns the value redeemed. `transfer` says what
/// came of moving the proceeds from the market to the participant. A sale that
/// is refused, for whatever reason, changes nothing.
pub fn sell(
    store: &mut LedgerStore,
    market_id: MarketId,
    signer: ParticipantId,
    bet: bool,
    shares: u64,
    transfer: Result<(), TransferError>,
) -> (result: Result<Amount, YapdotfunError>)
    ensures
        result == old(store)@.sell_result(market_id, signer, bet, shares, transfer is Ok),
        final(store)@ == old(store)@.after_sell(market_id, signer, bet, shares, transfer is Ok),
        final(store)@.wf(),
{
    proof {
        use_type_invariant(&*store);
    }
    let (at, held, mut ctx) = match store.sell_context(&market_id, &signer) {
        Some(found) => found,
        None => {
            return Err(YapdotfunError::MarketDoesNotExist);
        },
    };
    let value = match instructions::sell::handler(&mut ctx, bet, shares, transfer) {
        Ok(value) => value,
        Err(error) => {
            return Err(error);
        },
    };
    let place = held.unwrap();
    let position = ctx.market_voter.unwrap();
    proof {
        old(store)@.lemma_sell_keeps_wf(market_id, signer, bet, shares, true);
    }
    let (markets, mut ledgers, mut positions) = store.take();
    ledgers.set(at, ctx.market_metadata);
    positions.set(place, position);
    store.put(markets, ledgers, positions);
    Ok(value)
}

} // verus!
