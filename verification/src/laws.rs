//! What holds of the instructions on every well-formed store.

use vstd::prelude::*;
use crate::errors::YapdotfunError;
use crate::instructions::initialize_market::market_id_for;
use crate::model::{Instruction, LedgerState};
use crate::state::market::{
    Market,
    MarketId,
    MarketMetadata,
    MarketStatus,
    MarketVoter,
    ParticipantId,
};
use crate::utils::{lemma_shares_cost_no_more, to_shares, to_value, ExchangeRate};

verus! {

/// Shares are bought rounded down: what they are redeemed for is never more
/// than the stake, and falls short of it by less than the price of one share.
pub proof fn conversion_rounds_down(value: nat, rate: nat)
    requires
        rate > 0,
    ensures
        to_value(to_shares(value, rate), rate) <= value,
        value - to_value(to_shares(value, rate), rate) == value % rate,
        value - to_value(to_shares(value, rate), rate) < rate,
{
    lemma_shares_cost_no_more(value, rate);
    vstd::arithmetic::div_mod::lemma_fundamental_div_mod(value as int, rate as int);
    vstd::arithmetic::mul::lemma_mul_is_commutative(rate as int, (value / rate) as int);
    vstd::arithmetic::div_mod::lemma_mod_bound(value as int, rate as int);
}

/// In a well-formed store a buy overflows only where the pool of the market
/// cannot take the stake.
pub proof fn buy_overflows_with_the_pool(
    state: LedgerState,
    market_id: MarketId,
    signer: ParticipantId,
    bet: bool,
    amount: u64,
)
    requires
        state.wf(),
        state.has_market(market_id),
    ensures
        state.ledger(market_id).can_credit(
            bet,
            amount,
            state.buy_context(market_id, signer).shares(amount),
        ) <==> state.ledger(market_id).total_rewards + amount <= u64::MAX,
{
    let ledger = state.ledger(market_id);
    let rate = state.rate@;
    let shares = state.buy_context(market_id, signer).shares(amount);
    assert(state.sound(ledger));
    lemma_shares_cost_no_more(amount as nat, rate);
    assert(ledger.side_shares(bet) <= ledger.side_assets(bet)) by (nonlinear_arith)
        requires
            ledger.side_shares(bet) * rate <= ledger.side_assets(bet),
            rate > 0,
    ;
    assert(shares <= amount) by (nonlinear_arith)
        requires
            (amount as nat / rate) * rate <= amount,
            shares == amount as nat / rate,
            rate > 0,
    ;
}

/// A buy of a stake above zero in an open market, by a participant who holds
/// no position there, whose stake the pool can take and is transferred:
/// it issues the stake divided by the rate, rounded down, in shares; the
/// value and the shares of the side that was bought grow by the stake and by
/// those shares; the pool grows by the stake; the other side stays as it was;
/// and the participant holds a position of those shares.
pub proof fn buy_issues_shares_for_the_stake(
    state: LedgerState,
    market_id: MarketId,
    signer: ParticipantId,
    bet: bool,
    amount: u64,
)
    requires
        state.wf(),
        state.has_market(market_id),
        state.ledger(market_id).status == MarketStatus::Open,
        amount > 0,
        !state.has_position(market_id, signer),
        state.ledger(market_id).total_rewards + amount <= u64::MAX,
    ensures
        state.buy_result(market_id, signer, bet, amount, true) == Ok::<u64, YapdotfunError>(
            (amount as nat / state.rate@) as u64,
        ),
        ({
            let before = state.ledger(market_id);
            let after = state.after_buy(market_id, signer, bet, amount, true);
            let shares = amount as nat / state.rate@;
            &&& after.has_market(market_id)
            &&& after.ledger(market_id).side_assets(bet) == before.side_assets(bet) + amount
            &&& after.ledger(market_id).side_shares(bet) == before.side_shares(bet) + shares
            &&& after.ledger(market_id).total_rewards == before.total_rewards + amount
            &&& after.ledger(market_id).side_assets(!bet) == before.side_assets(!bet)
            &&& after.ledger(market_id).side_shares(!bet) == before.side_shares(!bet)
            &&& after.ledger(market_id).status == MarketStatus::Open
            &&& after.position(market_id, signer) == Some(
                MarketVoter { market_id, voter: signer, vote: bet, amount, shares: shares as u64 },
            )
        }),
{
    let after = state.after_buy(market_id, signer, bet, amount, true);
    let at = state.market_index(market_id);
    buy_overflows_with_the_pool(state, market_id, signer, bet, amount);
    state.lemma_buy_keeps_wf(market_id, signer, bet, amount, true);
    after.lemma_market_found(market_id, at);
    assert(after.held_by(state.positions.len() as int, market_id, signer));
    after.lemma_position_found(market_id, signer, state.positions.len() as int);
}

/// Whatever a buy or a sale does in one market, the ledger of every other
/// market stays as it was.
pub proof fn other_markets_are_untouched(
    state: LedgerState,
    market_id: MarketId,
    signer: ParticipantId,
    bet: bool,
    quantity: u64,
    transferred: bool,
    other: MarketId,
)
    requires
        state.wf(),
        state.has_market(other),
        other != market_id,
    ensures
        state.after_buy(market_id, signer, bet, quantity, transferred).ledger(other)
            == state.ledger(other),
        state.after_sell(market_id, signer, bet, quantity, transferred).ledger(other)
            == state.ledger(other),
{
    let at = state.market_index(other);
    let bought = state.after_buy(market_id, signer, bet, quantity, transferred);
    state.lemma_buy_keeps_wf(market_id, signer, bet, quantity, transferred);
    bought.lemma_market_found(other, at);
    let sold = state.after_sell(market_id, signer, bet, quantity, transferred);
    state.lemma_sell_keeps_wf(market_id, signer, bet, quantity, transferred);
    sold.lemma_market_found(other, at);
}

/// A buy or a sale that is refused, for whatever reason, changes nothing.
pub proof fn a_refused_instruction_changes_nothing(
    state: LedgerState,
    market_id: MarketId,
    signer: ParticipantId,
    bet: bool,
    quantity: u64,
    transferred: bool,
)
    ensures
        state.buy_result(market_id, signer, bet, quantity, transferred) is Err ==> state.after_buy(
            market_id,
            signer,
            bet,
            quantity,
            transferred,
        ) == state,
        state.sell_result(market_id, signer, bet, quantity, transferred) is Err
            ==> state.after_sell(market_id, signer, bet, quantity, transferred) == state,
{
}

/// A quote foretells the instruction: what is refused in the quote is refused
/// for the same reason whatever comes of the transfer, and what the quote
/// grants is returned where the transfer goes through and refused with
/// `TransferFailed` where it does not.
pub proof fn a_quote_foretells_the_outcome(
    state: LedgerState,
    market_id: MarketId,
    signer: ParticipantId,
    bet: bool,
    quantity: u64,
    transferred: bool,
)
    ensures
        state.buy_result(market_id, signer, bet, quantity, transferred) == (if transferred
            || state.buy_result(market_id, signer, bet, quantity, true) is Err {
            state.buy_result(market_id, signer, bet, quantity, true)
        } else {
            Err(YapdotfunError::TransferFailed)
        }),
        state.sell_result(market_id, signer, bet, quantity, transferred) == (if transferred
            || state.sell_result(market_id, signer, bet, quantity, true) is Err {
            state.sell_result(market_id, signer, bet, quantity, true)
        } else {
            Err(YapdotfunError::TransferFailed)
        }),
{
}

/// A buy of nothing fails with `InvalidAmount`, whatever else holds of the
/// market, and changes nothing.
pub proof fn buy_of_nothing_is_refused(
    state: LedgerState,
    market_id: MarketId,
    signer: ParticipantId,
    bet: bool,
    transferred: bool,
)
    requires
        state.has_market(market_id),
    ensures
        state.buy_result(market_id, signer, bet, 0, transferred) == Err::<u64, YapdotfunError>(
            YapdotfunError::InvalidAmount,
        ),
        state.after_buy(market_id, signer, bet, 0, transferred) == state,
{
}

/// A buy of a stake above zero in a closed market fails with `MarketNotOpen`
/// and changes nothing.
pub proof fn buy_in_a_closed_market_is_refused(
    state: LedgerState,
    market_id: MarketId,
    signer: ParticipantId,
    bet: bool,
    amount: u64,
    transferred: bool,
)
    requires
        state.has_market(market_id),
        state.ledger(market_id).status == MarketStatus::Closed,
        amount > 0,
    ensures
        state.buy_result(market_id, signer, bet, amount, transferred) == Err::<u64, YapdotfunError>(
            YapdotfunError::MarketNotOpen,
        ),
        state.after_buy(market_id, signer, bet, amount, transferred) == state,
{
}

/// Who holds a position in a market cannot buy there again, on either side:
/// the buy fails and changes nothing, and where the stake is above zero and
/// the market open it fails with `PositionAlreadyExists`.
pub proof fn second_buy_is_refused(
    state: LedgerState,
    market_id: MarketId,
    signer: ParticipantId,
    bet: bool,
    amount: u64,
    transferred: bool,
)
    requires
        state.has_market(market_id),
        state.has_position(market_id, signer),
    ensures
        state.buy_result(market_id, signer, bet, amount, transferred) is Err,
        state.after_buy(market_id, signer, bet, amount, transferred) == state,
        amount > 0 && state.ledger(market_id).status == MarketStatus::Open ==> state.buy_result(
            market_id,
            signer,
            bet,
            amount,
            transferred,
        ) == Err::<u64, YapdotfunError>(YapdotfunError::PositionAlreadyExists),
{
}

/// A sale of nothing fails with `NoSharesToSell`, whatever else holds of the
/// market, and changes nothing.
pub proof fn sale_of_nothing_is_refused(
    state: LedgerState,
    market_id: MarketId,
    signer: ParticipantId,
    bet: bool,
    transferred: bool,
)
    requires
        state.has_market(market_id),
    ensures
        state.sell_result(market_id, signer, bet, 0, transferred) == Err::<u64, YapdotfunError>(
            YapdotfunError::NoSharesToSell,
        ),
        state.after_sell(market_id, signer, bet, 0, transferred) == state,
{
}

/// A sale of shares above zero in an open market fails with
/// `MarketNotClosed`, whoever sells, and changes nothing.
pub proof fn sale_in_an_open_market_is_refused(
    state: LedgerState,
    market_id: MarketId,
    signer: ParticipantId,
    bet: bool,
    shares: u64,
    transferred: bool,
)
    requires
        state.has_market(market_id),
        state.ledger(market_id).status == MarketStatus::Open,
        shares > 0,
    ensures
        state.sell_result(market_id, signer, bet, shares, transferred) == Err::<
            u64,
            YapdotfunError,
        >(YapdotfunError::MarketNotClosed),
        state.after_sell(market_id, signer, bet, shares, transferred) == state,
{
}

/// A sale in a closed market of more shares than the position holds, on the
/// side of the position, fails with `NotEnoughShares` and changes nothing.
pub proof fn sale_beyond_the_position_is_refused(
    state: LedgerState,
    market_id: MarketId,
    signer: ParticipantId,
    bet: bool,
    shares: u64,
    transferred: bool,
)
    requires
        state.has_market(market_id),
        state.ledger(market_id).status == MarketStatus::Closed,
        state.position(market_id, signer) matches Some(position) && position.vote == bet
            && shares > position.shares,
    ensures
        state.sell_result(market_id, signer, bet, shares, transferred) == Err::<
            u64,
            YapdotfunError,
        >(YapdotfunError::NotEnoughShares),
        state.after_sell(market_id, signer, bet, shares, transferred) == state,
{
}

/// In a well-formed store no sale fails for want of range: what a position
/// holds is covered by the ledger of its market, so a sale never overflows
/// and never underflows.
pub proof fn sale_never_leaves_the_range(
    state: LedgerState,
    market_id: MarketId,
    signer: ParticipantId,
    bet: bool,
    shares: u64,
    transferred: bool,
)
    requires
        state.wf(),
    ensures
        state.sell_result(market_id, signer, bet, shares, transferred) != Err::<
            u64,
            YapdotfunError,
        >(YapdotfunError::Overflow),
        state.sell_result(market_id, signer, bet, shares, transferred) != Err::<
            u64,
            YapdotfunError,
        >(YapdotfunError::Underflow),
{
    if state.has_market(market_id) {
        if state.position(market_id, signer) matches Some(position) && position.vote == bet
            && shares <= position.shares {
            state.lemma_sale_is_covered(market_id, signer, bet, shares);
        }
    }
}

/// A sale in a closed market of shares above zero that the position holds, on
/// the side of the position, whose proceeds are transferred: it redeems the
/// shares times the rate; the value and the shares of the side that was sold
/// shrink by the proceeds and by those shares; the pool shrinks by the
/// proceeds; the other side stays as it was; and the position holds those
/// shares fewer.
pub proof fn sale_redeems_shares_at_the_rate(
    state: LedgerState,
    market_id: MarketId,
    signer: ParticipantId,
    bet: bool,
    shares: u64,
)
    requires
        state.wf(),
        state.has_market(market_id),
        state.ledger(market_id).status == MarketStatus::Closed,
        shares > 0,
        state.position(market_id, signer) matches Some(position) && position.vote == bet
            && shares <= position.shares,
    ensures
        state.sell_result(market_id, signer, bet, shares, true) == Ok::<u64, YapdotfunError>(
            (shares * state.rate@) as u64,
        ),
        shares * state.rate@ <= u64::MAX,
        ({
            let before = state.ledger(market_id);
            let held = state.position(market_id, signer)->0;
            let after = state.after_sell(market_id, signer, bet, shares, true);
            let value = shares * state.rate@;
            &&& after.has_market(market_id)
            &&& after.ledger(market_id).side_assets(bet) == before.side_assets(bet) - value
            &&& after.ledger(market_id).side_shares(bet) == before.side_shares(bet) - shares
            &&& after.ledger(market_id).total_rewards == before.total_rewards - value
            &&& after.ledger(market_id).side_assets(!bet) == before.side_assets(!bet)
            &&& after.ledger(market_id).side_shares(!bet) == before.side_shares(!bet)
            &&& after.ledger(market_id).status == MarketStatus::Closed
            &&& after.position(market_id, signer) == Some(
                MarketVoter { shares: (held.shares - shares) as u64, ..held },
            )
        }),
{
    let after = state.after_sell(market_id, signer, bet, shares, true);
    let at = state.market_index(market_id);
    let place = state.position_index(market_id, signer);
    assert(state.held_by(place, market_id, signer));
    state.lemma_sale_is_covered(market_id, signer, bet, shares);
    state.lemma_sell_keeps_wf(market_id, signer, bet, shares, true);
    after.lemma_market_found(market_id, at);
    assert(after.held_by(place, market_id, signer));
    after.lemma_position_found(market_id, signer, place);
}

/// A market cannot be initialized twice: once a market with some description
/// is recorded, the market of any description that reads the same is found
/// recorded, so that initializing it fails with `MarketAlreadyExists` and
/// changes nothing.
pub proof fn second_initialization_is_refused(state: LedgerState, first: Market, second: Market)
    requires
        first.market_id == market_id_for(first.description@),
        second.market_id == market_id_for(second.description@),
        first.description@ == second.description@,
    ensures
        state.after_initialize(first).initialize_result(second.market_id) == Err::<
            (),
            YapdotfunError,
        >(YapdotfunError::MarketAlreadyExists),
        state.after_initialize(first).after_initialize(second) == state.after_initialize(first),
{
    let after = state.after_initialize(first);
    if !state.has_market(first.market_id) {
        assert(after.ledgers[state.ledgers.len() as int] == MarketMetadata::empty(first.market_id));
    }
}

/// Closing a market changes its status and nothing else.
pub proof fn closing_changes_the_status_only(state: LedgerState, market_id: MarketId)
    requires
        state.wf(),
        state.has_market(market_id),
    ensures
        state.after_close(market_id).has_market(market_id),
        state.after_close(market_id).ledger(market_id) == (MarketMetadata {
            status: MarketStatus::Closed,
            ..state.ledger(market_id)
        }),
        state.after_close(market_id).markets == state.markets,
        state.after_close(market_id).positions == state.positions,
        state.after_close(market_id).rate == state.rate,
{
    let closed = state.after_close(market_id);
    state.lemma_close_keeps_wf(market_id);
    closed.lemma_market_found(market_id, state.market_index(market_id));
}

/// Nothing in an empty store is amiss.
pub proof fn an_empty_store_is_well_formed(rate: ExchangeRate)
    requires
        rate@ > 0,
    ensures
        LedgerState::empty(rate).wf(),
{
}

/// Whatever holds of the store at all times holds after every instruction:
/// the pool of every market is the value of its two sides, the shares of
/// every side are those that the positions hold, their value is covered, no
/// market is recorded twice, and no participant holds two positions in one
/// market.
pub proof fn every_instruction_keeps_the_store_well_formed(
    state: LedgerState,
    instruction: Instruction,
)
    requires
        state.wf(),
        instruction.valid(),
    ensures
        state.after(instruction).wf(),
{
    match instruction {
        Instruction::Initialize { market } => {
            state.lemma_initialize_keeps_wf(market);
        },
        Instruction::Close { market_id } => {
            state.lemma_close_keeps_wf(market_id);
        },
        Instruction::Buy { market_id, signer, bet, amount, transferred } => {
            state.lemma_buy_keeps_wf(market_id, signer, bet, amount, transferred);
        },
        Instruction::Sell { market_id, signer, bet, shares, transferred } => {
            state.lemma_sell_keeps_wf(market_id, signer, bet, shares, transferred);
        },
    }
}

/// No instruction takes away what is recorded: a market stays recorded with
/// the description that it was initialized with, a closed market stays
/// closed, and who holds a position goes on holding one, on the same side and
/// for the same stake.
pub proof fn nothing_recorded_is_lost(
    state: LedgerState,
    instruction: Instruction,
    market_id: MarketId,
    voter: ParticipantId,
)
    requires
        state.wf(),
        instruction.valid(),
        state.has_market(market_id),
    ensures
        state.after(instruction).has_market(market_id),
        state.after(instruction).market(market_id) == state.market(market_id),
        state.ledger(market_id).status == MarketStatus::Closed ==> state.after(instruction).ledger(
            market_id,
        ).status == MarketStatus::Closed,
        state.position(market_id, voter) matches Some(held) ==> (state.after(instruction).position(
            market_id,
            voter,
        ) matches Some(kept) && kept.vote == held.vote && kept.amount == held.amount),
{
    let after = state.after(instruction);
    let at = state.market_index(market_id);
    every_instruction_keeps_the_store_well_formed(state, instruction);
    assert(after.ledgers[at].market_id == market_id);
    after.lemma_market_found(market_id, at);
    if state.has_position(market_id, voter) {
        let place = state.position_index(market_id, voter);
        assert(state.held_by(place, market_id, voter));
        assert(after.held_by(place, market_id, voter));
        after.lemma_position_found(market_id, voter, place);
    }
}

/// Buying, closing the market and selling all the shares bought gives back
/// the stake but for what was lost in rounding down: the sale redeems the
/// shares at the rate, the shares of the side are what they were before the
/// buy, and the value of the side and the pool are above what they were by
/// the remainder of the stake divided by the rate. A stake that the rate
/// divides is given back whole.
pub proof fn round_trip_loses_the_remainder(
    state: LedgerState,
    market_id: MarketId,
    signer: ParticipantId,
    bet: bool,
    amount: u64,
)
    requires
        state.wf(),
        state.has_market(market_id),
        state.ledger(market_id).status == MarketStatus::Open,
        !state.has_position(market_id, signer),
        state.ledger(market_id).total_rewards + amount <= u64::MAX,
        amount >= state.rate@,
    ensures
        ({
            let shares = (amount as nat / state.rate@) as u64;
            let before = state.ledger(market_id);
            let closed = state.after_buy(market_id, signer, bet, amount, true).after_close(
                market_id,
            );
            let after = closed.after_sell(market_id, signer, bet, shares, true).ledger(market_id);
            &&& closed.sell_result(market_id, signer, bet, shares, true) == Ok::<
                u64,
                YapdotfunError,
            >((amount - amount as nat % state.rate@) as u64)
            &&& after.side_shares(bet) == before.side_shares(bet)
            &&& after.side_assets(bet) == before.side_assets(bet) + amount as nat % state.rate@
            &&& after.total_rewards == before.total_rewards + amount as nat % state.rate@
            &&& after.side_shares(!bet) == before.side_shares(!bet)
            &&& after.side_assets(!bet) == before.side_assets(!bet)
        }),
{
    let rate = state.rate@;
    let shares = (amount as nat / rate) as u64;
    let bought = state.after_buy(market_id, signer, bet, amount, true);
    let closed = bought.after_close(market_id);
    conversion_rounds_down(amount as nat, rate);
    assert(shares > 0) by (nonlinear_arith)
        requires
            shares == amount as nat / rate,
            amount >= rate,
            rate > 0,
    ;
    buy_issues_shares_for_the_stake(state, market_id, signer, bet, amount);
    state.lemma_buy_keeps_wf(market_id, signer, bet, amount, true);
    closing_changes_the_status_only(bought, market_id);
    bought.lemma_close_keeps_wf(market_id);
    assert(closed.position(market_id, signer) == bought.position(market_id, signer)) by {
        assert(closed.positions == bought.positions);
        assert(closed.has_position(market_id, signer) == bought.has_position(market_id, signer))
            by {
            assert(forall|at: int|
                closed.held_by(at, market_id, signer) == bought.held_by(at, market_id, signer));
        }
        assert(closed.position_index(market_id, signer) == bought.position_index(
            market_id,
            signer,
        )) by {
            assert(forall|at: int|
                closed.held_by(at, market_id, signer) == bought.held_by(at, market_id, signer));
        }
    }
    sale_redeems_shares_at_the_rate(closed, market_id, signer, bet, shares);
}

} // verus!
