//! The ledger of all markets as a mathematical value: what it holds, what
//! always holds of it, and what each instruction makes of it.

use vstd::prelude::*;
use crate::errors::YapdotfunError;
use crate::instructions::buy::Buy;
use crate::instructions::initialize_market::market_id_of;
use crate::instructions::sell::Sell;
use crate::state::market::{
    Market,
    MarketId,
    MarketMetadata,
    MarketStatus,
    MarketVoter,
    ParticipantId,
};
use crate::utils::{
    lemma_shares_cost_no_more,
    lemma_value_of_shares,
    Amount,
    ExchangeRate,
    Shares,
};

verus! {

/// The shares that a position adds to one side of one market: those that it
/// holds where it was taken in that market and on that side, none otherwise.
pub open spec fn stake_of(position: MarketVoter, market_id: MarketId, vote: bool) -> nat {
    if position.market_id == market_id && position.vote == vote {
        position.shares as nat
    } else {
        0
    }
}

/// The shares that all positions together hold on one side of one market.
pub open spec fn shares_held(positions: Seq<MarketVoter>, market_id: MarketId, vote: bool) -> nat
    decreases positions.len(),
{
    if positions.len() == 0 {
        0
    } else {
        shares_held(positions.drop_last(), market_id, vote) + stake_of(
            positions.last(),
            market_id,
            vote,
        )
    }
}

/// A new position adds its stake to the shares held.
pub proof fn lemma_shares_held_push(
    positions: Seq<MarketVoter>,
    position: MarketVoter,
    market_id: MarketId,
    vote: bool,
)
    ensures
        shares_held(positions.push(position), market_id, vote) == shares_held(
            positions,
            market_id,
            vote,
        ) + stake_of(position, market_id, vote),
{
    assert(positions.push(position).drop_last() =~= positions);
}

/// A position that changes takes its old stake out of the shares held and
/// puts its new stake in.
pub proof fn lemma_shares_held_update(
    positions: Seq<MarketVoter>,
    at: int,
    position: MarketVoter,
    market_id: MarketId,
    vote: bool,
)
    requires
        0 <= at < positions.len(),
    ensures
        shares_held(positions.update(at, position), market_id, vote) == shares_held(
            positions,
            market_id,
            vote,
        ) - stake_of(positions[at], market_id, vote) + stake_of(position, market_id, vote),
    decreases positions.len(),
{
    let updated = positions.update(at, position);
    if at == positions.len() - 1 {
        assert(updated.drop_last() =~= positions.drop_last());
    } else {
        assert(updated.drop_last() =~= positions.drop_last().update(at, position));
        lemma_shares_held_update(positions.drop_last(), at, position, market_id, vote);
    }
}

/// No position holds more than all positions together.
pub proof fn lemma_shares_held_covers(
    positions: Seq<MarketVoter>,
    at: int,
    market_id: MarketId,
    vote: bool,
)
    requires
        0 <= at < positions.len(),
    ensures
        stake_of(positions[at], market_id, vote) <= shares_held(positions, market_id, vote),
    decreases positions.len(),
{
    if at < positions.len() - 1 {
        lemma_shares_held_covers(positions.drop_last(), at, market_id, vote);
    }
}

/// Where no position was taken in a market, no shares of it are held.
pub proof fn lemma_shares_held_none(positions: Seq<MarketVoter>, market_id: MarketId, vote: bool)
    requires
        forall|at: int|
            0 <= at < positions.len() ==> (#[trigger] positions[at]).market_id != market_id,
    ensures
        shares_held(positions, market_id, vote) == 0,
    decreases positions.len(),
{
    if positions.len() > 0 {
        let rest = positions.drop_last();
        assert forall|at: int| 0 <= at < rest.len() implies (#[trigger] rest[at]).market_id
            != market_id by {
            assert(rest[at] == positions[at]);
        }
        lemma_shares_held_none(rest, market_id, vote);
        assert(positions.last() == positions[positions.len() - 1]);
    }
}

/// Everything that the ledger store holds: the exchange rate, and, in the
/// order in which they came, the descriptions of the markets, their ledgers,
/// and the positions taken.
pub struct LedgerState {
    /// The exchange rate between value and shares.
    pub rate: ExchangeRate,
    /// The description of every market.
    pub markets: Seq<Market>,
    /// The ledger of every market, at the place of its description.
    pub ledgers: Seq<MarketMetadata>,
    /// Every position that was ever taken.
    pub positions: Seq<MarketVoter>,
}

impl LedgerState {
    /// Whether a market is recorded under `market_id`.
    pub open spec fn has_market(self, market_id: MarketId) -> bool {
        exists|at: int|
            0 <= at < self.ledgers.len() && (#[trigger] self.ledgers[at]).market_id == market_id
    }

    /// The place at which the market `market_id` is recorded.
    pub open spec fn market_index(self, market_id: MarketId) -> int {
        choose|at: int|
            0 <= at < self.ledgers.len() && (#[trigger] self.ledgers[at]).market_id == market_id
    }

    /// The ledger of the market `market_id`.
    pub open spec fn ledger(self, market_id: MarketId) -> MarketMetadata {
        self.ledgers[self.market_index(market_id)]
    }

    /// The description of the market `market_id`.
    pub open spec fn market(self, market_id: MarketId) -> Market {
        self.markets[self.market_index(market_id)]
    }

    /// Whether `voter` holds a position in the market `market_id`.
    pub open spec fn has_position(self, market_id: MarketId, voter: ParticipantId) -> bool {
        exists|at: int| 0 <= at < self.positions.len() && self.held_by(at, market_id, voter)
    }

    /// Whether the position at the place `at` is the one that `voter` holds in
    /// the market `market_id`.
    pub open spec fn held_by(self, at: int, market_id: MarketId, voter: ParticipantId) -> bool {
        self.positions[at].market_id == market_id && self.positions[at].voter == voter
    }

    /// The place at which the position of `voter` in the market `market_id`
    /// is recorded.
    pub open spec fn position_index(self, market_id: MarketId, voter: ParticipantId) -> int {
        choose|at: int| 0 <= at < self.positions.len() && self.held_by(at, market_id, voter)
    }

    /// The position that `voter` holds in the market `market_id`, if any.
    pub open spec fn position(self, market_id: MarketId, voter: ParticipantId) -> Option<
        MarketVoter,
    > {
        if self.has_position(market_id, voter) {
            Some(self.positions[self.position_index(market_id, voter)])
        } else {
            None
        }
    }

    /// Every market has its ledger, is identified by the digest of its
    /// description, and has a description that is not too long.
    pub open spec fn markets_recorded(self) -> bool {
        &&& self.markets.len() == self.ledgers.len()
        &&& forall|at: int|
            0 <= at < self.markets.len() ==> {
                &&& (#[trigger] self.markets[at]).market_id == self.ledgers[at].market_id
                &&& self.markets[at].market_id@ == market_id_of(self.markets[at].description@)
                &&& self.markets[at].wf()
            }
    }

    /// No two markets share an identifier.
    pub open spec fn markets_distinct(self) -> bool {
        forall|first: int, second: int|
            0 <= first < second < self.ledgers.len() ==> (#[trigger] self.ledgers[first]).market_id
                != (#[trigger] self.ledgers[second]).market_id
    }

    /// No participant holds two positions in one market.
    pub open spec fn positions_distinct(self) -> bool {
        forall|first: int, second: int|
            0 <= first < second < self.positions.len() ==> !{
                &&& (#[trigger] self.positions[first]).market_id
                    == (#[trigger] self.positions[second]).market_id
                &&& self.positions[first].voter == self.positions[second].voter
            }
    }

    /// Every position was taken in a market that is recorded.
    pub open spec fn positions_belong(self) -> bool {
        forall|at: int|
            0 <= at < self.positions.len() ==> self.has_market(
                (#[trigger] self.positions[at]).market_id,
            )
    }

    /// What holds of the ledger of a market at all times: its pool is the
    /// value staked on its two sides; the shares issued for a side are those
    /// that the positions on that side hold; and the value staked on a side
    /// covers what those shares are redeemed for.
    pub open spec fn sound(self, ledger: MarketMetadata) -> bool {
        &&& ledger.balanced()
        &&& ledger.backed(self.rate@)
        &&& ledger.total_yes_shares == shares_held(self.positions, ledger.market_id, true)
        &&& ledger.total_no_shares == shares_held(self.positions, ledger.market_id, false)
    }

    /// Every ledger is sound.
    pub open spec fn ledgers_sound(self) -> bool {
        forall|at: int| 0 <= at < self.ledgers.len() ==> self.sound(#[trigger] self.ledgers[at])
    }

    /// What holds of the ledger store at all times.
    pub open spec fn wf(self) -> bool {
        &&& self.rate@ > 0
        &&& self.markets_recorded()
        &&& self.markets_distinct()
        &&& self.positions_distinct()
        &&& self.positions_belong()
        &&& self.ledgers_sound()
    }

    /// The store in which nothing is recorded.
    pub open spec fn empty(rate: ExchangeRate) -> LedgerState {
        LedgerState { rate, markets: Seq::empty(), ledgers: Seq::empty(), positions: Seq::empty() }
    }

    /// Whether a market can be initialized under `market_id`: it can unless
    /// one is recorded there already.
    pub open spec fn initialize_result(self, market_id: MarketId) -> Result<(), YapdotfunError> {
        if self.has_market(market_id) {
            Err(YapdotfunError::MarketAlreadyExists)
        } else {
            Ok(())
        }
    }

    /// Whether note can be taken that the market `market_id` has been closed:
    /// it can where the market is recorded.
    pub open spec fn close_result(self, market_id: MarketId) -> Result<(), YapdotfunError> {
        if self.has_market(market_id) {
            Ok(())
        } else {
            Err(YapdotfunError::MarketDoesNotExist)
        }
    }

    /// The store after the market `market` has been initialized: its
    /// description is recorded with an open, empty ledger. Where its
    /// identifier is taken, nothing changes.
    pub open spec fn after_initialize(self, market: Market) -> LedgerState {
        if self.has_market(market.market_id) {
            self
        } else {
            LedgerState {
                markets: self.markets.push(market),
                ledgers: self.ledgers.push(MarketMetadata::empty(market.market_id)),
                ..self
            }
        }
    }

    /// The store after the market `market_id` has been closed. Where no such
    /// market is recorded, nothing changes.
    pub open spec fn after_close(self, market_id: MarketId) -> LedgerState {
        if self.has_market(market_id) {
            LedgerState {
                ledgers: self.ledgers.update(
                    self.market_index(market_id),
                    MarketMetadata { status: MarketStatus::Closed, ..self.ledger(market_id) },
                ),
                ..self
            }
        } else {
            self
        }
    }

    /// The records that a buy of `signer` in the market `market_id` works on.
    pub open spec fn buy_context(self, market_id: MarketId, signer: ParticipantId) -> Buy {
        Buy {
            market_metadata: self.ledger(market_id),
            market_voter: self.position(market_id, signer),
            signer,
            rate: self.rate,
        }
    }

    /// What a buy returns: the shares issued, or the reason for which the buy
    /// is refused. A market that is not recorded comes first, then what the
    /// buy finds wrong with the records, and last a transfer of the stake that
    /// did not go through.
    pub open spec fn buy_result(
        self,
        market_id: MarketId,
        signer: ParticipantId,
        bet: bool,
        amount: u64,
        transferred: bool,
    ) -> Result<Shares, YapdotfunError> {
        if !self.has_market(market_id) {
            Err(YapdotfunError::MarketDoesNotExist)
        } else {
            self.buy_context(market_id, signer).outcome(bet, amount, transferred)
        }
    }

    /// The store after a buy: where shares were issued, the ledger of the
    /// market holds the stake and the position of the signer is recorded;
    /// where the buy was refused, nothing has changed.
    pub open spec fn after_buy(
        self,
        market_id: MarketId,
        signer: ParticipantId,
        bet: bool,
        amount: u64,
        transferred: bool,
    ) -> LedgerState {
        if self.buy_result(market_id, signer, bet, amount, transferred) is Ok {
            let staged = self.buy_context(market_id, signer).staged(bet, amount);
            LedgerState {
                ledgers: self.ledgers.update(self.market_index(market_id), staged.market_metadata),
                positions: self.positions.push(staged.market_voter->0),
                ..self
            }
        } else {
            self
        }
    }

    /// The records that a sale of `signer` in the market `market_id` works on.
    pub open spec fn sell_context(self, market_id: MarketId, signer: ParticipantId) -> Sell {
        Sell {
            market_metadata: self.ledger(market_id),
            market_voter: self.position(market_id, signer),
            signer,
            rate: self.rate,
        }
    }

    /// What a sale returns: the value redeemed, or the reason for which the
    /// sale is refused. A market that is not recorded comes first, then what
    /// the sale finds wrong with the records, and last a transfer of the
    /// proceeds that did not go through.
    pub open spec fn sell_result(
        self,
        market_id: MarketId,
        signer: ParticipantId,
        bet: bool,
        shares: u64,
        transferred: bool,
    ) -> Result<Amount, YapdotfunError> {
        if !self.has_market(market_id) {
            Err(YapdotfunError::MarketDoesNotExist)
        } else {
            self.sell_context(market_id, signer).outcome(bet, shares, transferred)
        }
    }

    /// The store after a sale: where value was redeemed, it has left the
    /// ledger of the market and the position of the signer holds the shares
    /// that are left; where the sale was refused, nothing has changed.
    pub open spec fn after_sell(
        self,
        market_id: MarketId,
        signer: ParticipantId,
        bet: bool,
        shares: u64,
        transferred: bool,
    ) -> LedgerState {
        if self.sell_result(market_id, signer, bet, shares, transferred) is Ok {
            let staged = self.sell_context(market_id, signer).staged(bet, shares);
            LedgerState {
                ledgers: self.ledgers.update(self.market_index(market_id), staged.market_metadata),
                positions: self.positions.update(
                    self.position_index(market_id, signer),
                    staged.market_voter->0,
                ),
                ..self
            }
        } else {
            self
        }
    }
}

/// An instruction, with all that decides what it does.
pub enum Instruction {
    /// The market `market` is initialized.
    Initialize { market: Market },
    /// Note is taken that the market `market_id` has been closed.
    Close { market_id: MarketId },
    /// `signer` stakes `amount` on the side `bet` of the market `market_id`;
    /// `transferred` says whether the stake was moved.
    Buy { market_id: MarketId, signer: ParticipantId, bet: bool, amount: u64, transferred: bool },
    /// `signer` sells `shares` of the side `bet` of the market `market_id`;
    /// `transferred` says whether the proceeds were moved.
    Sell { market_id: MarketId, signer: ParticipantId, bet: bool, shares: u64, transferred: bool },
}

impl Instruction {
    /// What holds of every instruction that is carried out: a market that is
    /// initialized is identified by the digest of its description, which is
    /// not too long.
    pub open spec fn valid(self) -> bool {
        self matches Instruction::Initialize { market } ==> market.wf() && market.market_id@
            == market_id_of(market.description@)
    }
}

impl LedgerState {
    /// The store after an instruction.
    pub open spec fn after(self, instruction: Instruction) -> LedgerState {
        match instruction {
            Instruction::Initialize { market } => self.after_initialize(market),
            Instruction::Close { market_id } => self.after_close(market_id),
            Instruction::Buy { market_id, signer, bet, amount, transferred } => self.after_buy(
                market_id,
                signer,
                bet,
                amount,
                transferred,
            ),
            Instruction::Sell { market_id, signer, bet, shares, transferred } => self.after_sell(
                market_id,
                signer,
                bet,
                shares,
                transferred,
            ),
        }
    }
}

impl LedgerState {
    /// Among distinct markets, an identifier is recorded at one place only.
    pub proof fn lemma_market_found(self, market_id: MarketId, at: int)
        requires
            self.markets_distinct(),
            0 <= at < self.ledgers.len(),
            self.ledgers[at].market_id == market_id,
        ensures
            self.has_market(market_id),
            self.market_index(market_id) == at,
    {
    }

    /// Among distinct positions, that of one participant in one market is
    /// recorded at one place only.
    pub proof fn lemma_position_found(self, market_id: MarketId, voter: ParticipantId, at: int)
        requires
            self.positions_distinct(),
            0 <= at < self.positions.len(),
            self.held_by(at, market_id, voter),
        ensures
            self.has_position(market_id, voter),
            self.position_index(market_id, voter) == at,
            self.position(market_id, voter) == Some(self.positions[at]),
    {
        let found = self.position_index(market_id, voter);
        assert(self.held_by(found, market_id, voter));
    }

    /// Initializing a market keeps the store well formed.
    pub proof fn lemma_initialize_keeps_wf(self, market: Market)
        requires
            self.wf(),
            market.wf(),
            market.market_id@ == market_id_of(market.description@),
        ensures
            self.after_initialize(market).wf(),
    {
        let after = self.after_initialize(market);
        if !self.has_market(market.market_id) {
            let fresh = MarketMetadata::empty(market.market_id);
            assert forall|at: int| 0 <= at < after.positions.len() implies after.has_market(
                (#[trigger] after.positions[at]).market_id,
            ) by {
                let place = self.market_index(self.positions[at].market_id);
                assert(after.ledgers[place] == self.ledgers[place]);
            }
            assert forall|at: int| 0 <= at < self.positions.len() implies (
            #[trigger] self.positions[at]).market_id != market.market_id by {
                assert(self.has_market(self.positions[at].market_id));
            }
            lemma_shares_held_none(self.positions, market.market_id, true);
            lemma_shares_held_none(self.positions, market.market_id, false);
            assert forall|at: int| 0 <= at < after.ledgers.len() implies after.sound(
                #[trigger] after.ledgers[at],
            ) by {
                if at < self.ledgers.len() {
                    assert(after.ledgers[at] == self.ledgers[at]);
                    assert(self.sound(self.ledgers[at]));
                } else {
                    assert(after.ledgers[at] == fresh);
                }
            }
        }
    }

    /// Closing a market keeps the store well formed.
    pub proof fn lemma_close_keeps_wf(self, market_id: MarketId)
        requires
            self.wf(),
        ensures
            self.after_close(market_id).wf(),
    {
        let after = self.after_close(market_id);
        if self.has_market(market_id) {
            let closed = self.market_index(market_id);
            assert forall|at: int| 0 <= at < after.positions.len() implies after.has_market(
                (#[trigger] after.positions[at]).market_id,
            ) by {
                let place = self.market_index(self.positions[at].market_id);
                assert(after.ledgers[place].market_id == self.ledgers[place].market_id);
            }
            assert forall|at: int| 0 <= at < after.ledgers.len() implies after.sound(
                #[trigger] after.ledgers[at],
            ) by {
                assert(self.sound(self.ledgers[at]));
            }
        }
    }

    /// A buy keeps the store well formed.
    pub proof fn lemma_buy_keeps_wf(
        self,
        market_id: MarketId,
        signer: ParticipantId,
        bet: bool,
        amount: u64,
        transferred: bool,
    )
        requires
            self.wf(),
        ensures
            self.after_buy(market_id, signer, bet, amount, transferred).wf(),
    {
        let after = self.after_buy(market_id, signer, bet, amount, transferred);
        if self.buy_result(market_id, signer, bet, amount, transferred) is Ok {
            let bought = self.market_index(market_id);
            let before = self.ledgers[bought];
            let context = self.buy_context(market_id, signer);
            let staged = context.staged(bet, amount);
            let position = staged.market_voter->0;
            let shares = context.shares(amount);
            assert(!self.has_position(market_id, signer));
            assert forall|first: int, second: int|
                0 <= first < second < after.positions.len() implies !{
                &&& (#[trigger] after.positions[first]).market_id
                    == (#[trigger] after.positions[second]).market_id
                &&& after.positions[first].voter == after.positions[second].voter
            } by {
                if second == self.positions.len() {
                    assert(!self.held_by(first, market_id, signer));
                }
            }
            assert forall|at: int| 0 <= at < after.positions.len() implies after.has_market(
                (#[trigger] after.positions[at]).market_id,
            ) by {
                if at < self.positions.len() {
                    let place = self.market_index(self.positions[at].market_id);
                    assert(after.ledgers[place].market_id == self.ledgers[place].market_id);
                } else {
                    assert(after.ledgers[bought].market_id == market_id);
                }
            }
            lemma_shares_cost_no_more(amount as nat, self.rate@);
            lemma_value_of_shares(shares as nat, before.total_yes_shares as nat, self.rate@);
            lemma_value_of_shares(shares as nat, before.total_no_shares as nat, self.rate@);
            assert forall|at: int| 0 <= at < after.ledgers.len() implies after.sound(
                #[trigger] after.ledgers[at],
            ) by {
                let ledger = self.ledgers[at];
                assert(self.sound(ledger));
                lemma_shares_held_push(self.positions, position, ledger.market_id, true);
                lemma_shares_held_push(self.positions, position, ledger.market_id, false);
            }
        }
    }

    /// In a well-formed store the shares of a position are covered: a sale of
    /// shares that the position holds neither overflows nor underflows.
    pub proof fn lemma_sale_is_covered(
        self,
        market_id: MarketId,
        signer: ParticipantId,
        bet: bool,
        shares: u64,
    )
        requires
            self.wf(),
            self.has_market(market_id),
            self.position(market_id, signer) matches Some(position) && position.vote == bet
                && shares <= position.shares,
        ensures
            self.sell_context(market_id, signer).value(shares) <= u64::MAX,
            self.ledger(market_id).can_debit(
                bet,
                self.sell_context(market_id, signer).value(shares) as u64,
                shares,
            ),
    {
        let ledger = self.ledger(market_id);
        let held = self.position_index(market_id, signer);
        assert(self.held_by(held, market_id, signer));
        assert(self.sound(ledger));
        lemma_shares_held_covers(self.positions, held, market_id, bet);
        lemma_value_of_shares(shares as nat, ledger.side_shares(bet) as nat, self.rate@);
    }

    /// A sale keeps the store well formed.
    pub proof fn lemma_sell_keeps_wf(
        self,
        market_id: MarketId,
        signer: ParticipantId,
        bet: bool,
        shares: u64,
        transferred: bool,
    )
        requires
            self.wf(),
        ensures
            self.after_sell(market_id, signer, bet, shares, transferred).wf(),
    {
        let after = self.after_sell(market_id, signer, bet, shares, transferred);
        if self.sell_result(market_id, signer, bet, shares, transferred) is Ok {
            let sold = self.market_index(market_id);
            let before = self.ledgers[sold];
            let held = self.position_index(market_id, signer);
            assert(self.held_by(held, market_id, signer));
            let context = self.sell_context(market_id, signer);
            let staged = context.staged(bet, shares);
            let position = staged.market_voter->0;
            assert forall|at: int| 0 <= at < after.positions.len() implies after.has_market(
                (#[trigger] after.positions[at]).market_id,
            ) by {
                let place = self.market_index(self.positions[at].market_id);
                assert(self.has_market(self.positions[at].market_id));
                assert(after.ledgers[place].market_id == self.ledgers[place].market_id);
            }
            lemma_value_of_shares(shares as nat, before.side_shares(bet) as nat, self.rate@);
            assert forall|at: int| 0 <= at < after.ledgers.len() implies after.sound(
                #[trigger] after.ledgers[at],
            ) by {
                let ledger = self.ledgers[at];
                assert(self.sound(ledger));
                lemma_shares_held_update(self.positions, held, position, ledger.market_id, true);
                lemma_shares_held_update(self.positions, held, position, ledger.market_id, false);
            }
        }
    }
}

} // verus!
