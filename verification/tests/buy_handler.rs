use yapdotfun::errors::YapdotfunError;
use yapdotfun::instructions::buy::{handler, quote, Buy};
use yapdotfun::state::market::{MarketMetadata, MarketStatus, MarketVoter};
use yapdotfun::utils::{ExchangeRate, TransferError};

const MARKET: [u8; 32] = [7; 32];
const ALICE: [u8; 32] = [1; 32];

fn buying_at(per_share: u64) -> Buy {
    Buy {
        market_metadata: MarketMetadata::new(MARKET),
        market_voter: None,
        signer: ALICE,
        rate: ExchangeRate::new(per_share).expect("a rate above zero"),
    }
}

#[test]
fn a_new_ledger_is_open_and_empty() {
    let ledger = MarketMetadata::new(MARKET);
    assert_eq!(
        ledger,
        MarketMetadata {
            market_id: MARKET,
            status: MarketStatus::Open,
            total_yes_assets: 0,
            total_no_assets: 0,
            total_yes_shares: 0,
            total_no_shares: 0,
            total_rewards: 0,
        }
    );
    assert_eq!(MarketStatus::default(), MarketStatus::Open);
}

#[test]
fn a_buy_on_yes_issues_shares_and_fills_the_yes_side() {
    let mut ctx = buying_at(200_000);
    assert_eq!(handler(&mut ctx, true, 1_000_000, Ok(())), Ok(5));
    assert_eq!(
        ctx.market_metadata,
        MarketMetadata {
            market_id: MARKET,
            status: MarketStatus::Open,
            total_yes_assets: 1_000_000,
            total_no_assets: 0,
            total_yes_shares: 5,
            total_no_shares: 0,
            total_rewards: 1_000_000,
        }
    );
    assert_eq!(
        ctx.market_voter,
        Some(MarketVoter {
            market_id: MARKET,
            voter: ALICE,
            vote: true,
            amount: 1_000_000,
            shares: 5,
        })
    );
}

#[test]
fn a_buy_on_no_issues_shares_and_fills_the_no_side() {
    let mut ctx = buying_at(1000);
    ctx.market_metadata.total_yes_assets = 4_000;
    ctx.market_metadata.total_yes_shares = 4;
    ctx.market_metadata.total_rewards = 4_000;
    assert_eq!(handler(&mut ctx, false, 2_500, Ok(())), Ok(2));
    assert_eq!(
        ctx.market_metadata,
        MarketMetadata {
            market_id: MARKET,
            status: MarketStatus::Open,
            total_yes_assets: 4_000,
            total_no_assets: 2_500,
            total_yes_shares: 4,
            total_no_shares: 2,
            total_rewards: 6_500,
        }
    );
    assert_eq!(
        ctx.market_voter,
        Some(MarketVoter { market_id: MARKET, voter: ALICE, vote: false, amount: 2_500, shares: 2 })
    );
}

#[test]
fn a_stake_below_the_rate_buys_no_share_but_is_staked() {
    let mut ctx = buying_at(200_000);
    assert_eq!(handler(&mut ctx, true, 199_999, Ok(())), Ok(0));
    assert_eq!(ctx.market_metadata.total_yes_assets, 199_999);
    assert_eq!(ctx.market_metadata.total_yes_shares, 0);
    assert_eq!(ctx.market_metadata.total_rewards, 199_999);
    assert_eq!(ctx.market_voter.expect("a position").shares, 0);
}

#[test]
fn a_buy_of_nothing_is_an_invalid_amount() {
    let mut ctx = buying_at(200_000);
    let before = ctx;
    assert_eq!(handler(&mut ctx, true, 0, Ok(())), Err(YapdotfunError::InvalidAmount));
    assert_eq!(ctx, before);
}

#[test]
fn a_buy_of_nothing_is_an_invalid_amount_before_all_else() {
    let mut ctx = buying_at(200_000);
    ctx.market_metadata.status = MarketStatus::Closed;
    ctx.market_voter =
        Some(MarketVoter { market_id: MARKET, voter: ALICE, vote: true, amount: 1, shares: 0 });
    let before = ctx;
    assert_eq!(handler(&mut ctx, false, 0, Ok(())), Err(YapdotfunError::InvalidAmount));
    assert_eq!(ctx, before);
}

#[test]
fn a_buy_in_a_closed_market_is_refused() {
    let mut ctx = buying_at(200_000);
    ctx.market_metadata.status = MarketStatus::Closed;
    let before = ctx;
    assert_eq!(handler(&mut ctx, true, 1_000_000, Ok(())), Err(YapdotfunError::MarketNotOpen));
    assert_eq!(ctx, before);
}

#[test]
fn a_closed_market_is_reported_before_a_position_that_exists() {
    let mut ctx = buying_at(200_000);
    ctx.market_metadata.status = MarketStatus::Closed;
    ctx.market_voter =
        Some(MarketVoter { market_id: MARKET, voter: ALICE, vote: true, amount: 1, shares: 0 });
    let before = ctx;
    assert_eq!(handler(&mut ctx, true, 1_000_000, Ok(())), Err(YapdotfunError::MarketNotOpen));
    assert_eq!(ctx, before);
}

#[test]
fn a_second_position_is_refused_on_either_side() {
    for bet in [true, false] {
        let mut ctx = buying_at(200_000);
        assert_eq!(handler(&mut ctx, true, 1_000_000, Ok(())), Ok(5));
        let before = ctx;
        assert_eq!(
            handler(&mut ctx, bet, 400_000, Ok(())),
            Err(YapdotfunError::PositionAlreadyExists),
        );
        assert_eq!(ctx, before);
    }
}

#[test]
fn a_stake_that_the_side_cannot_take_is_an_overflow() {
    let mut ctx = buying_at(1000);
    ctx.market_metadata.total_yes_assets = u64::MAX - 5;
    ctx.market_metadata.total_rewards = u64::MAX - 5;
    let before = ctx;
    assert_eq!(handler(&mut ctx, true, 6, Ok(())), Err(YapdotfunError::Overflow));
    assert_eq!(ctx, before);
    assert_eq!(handler(&mut ctx, true, 5, Ok(())), Ok(0));
    assert_eq!(ctx.market_metadata.total_yes_assets, u64::MAX);
    assert_eq!(ctx.market_metadata.total_rewards, u64::MAX);
}

#[test]
fn a_stake_that_the_pool_cannot_take_is_an_overflow() {
    let mut ctx = buying_at(1000);
    ctx.market_metadata.total_yes_assets = u64::MAX - 5;
    ctx.market_metadata.total_rewards = u64::MAX - 5;
    let before = ctx;
    assert_eq!(handler(&mut ctx, false, 6, Ok(())), Err(YapdotfunError::Overflow));
    assert_eq!(ctx, before);
}

#[test]
fn shares_that_the_side_cannot_take_are_an_overflow() {
    let mut ctx = buying_at(1);
    ctx.market_metadata.total_no_shares = u64::MAX - 1;
    let before = ctx;
    assert_eq!(handler(&mut ctx, false, 2, Ok(())), Err(YapdotfunError::Overflow));
    assert_eq!(ctx, before);
    assert_eq!(handler(&mut ctx, false, 1, Ok(())), Ok(1));
    assert_eq!(ctx.market_metadata.total_no_shares, u64::MAX);
}

#[test]
fn crediting_a_ledger_adds_to_one_side_and_to_the_pool() {
    let mut ledger = MarketMetadata::new(MARKET);
    assert_eq!(ledger.credit(true, 10, 3), Ok(()));
    assert_eq!(ledger.credit(false, 7, 2), Ok(()));
    assert_eq!(
        ledger,
        MarketMetadata {
            market_id: MARKET,
            status: MarketStatus::Open,
            total_yes_assets: 10,
            total_no_assets: 7,
            total_yes_shares: 3,
            total_no_shares: 2,
            total_rewards: 17,
        }
    );
    let before = ledger;
    assert_eq!(ledger.credit(true, u64::MAX, 0), Err(YapdotfunError::Overflow));
    assert_eq!(ledger, before);
}

#[test]
fn debiting_a_ledger_takes_from_one_side_and_from_the_pool() {
    let mut ledger = MarketMetadata::new(MARKET);
    assert_eq!(ledger.credit(true, 10, 3), Ok(()));
    assert_eq!(ledger.credit(false, 7, 2), Ok(()));
    assert_eq!(ledger.debit(true, 4, 1), Ok(()));
    assert_eq!(
        ledger,
        MarketMetadata {
            market_id: MARKET,
            status: MarketStatus::Open,
            total_yes_assets: 6,
            total_no_assets: 7,
            total_yes_shares: 2,
            total_no_shares: 2,
            total_rewards: 13,
        }
    );
    let before = ledger;
    assert_eq!(ledger.debit(true, 7, 1), Err(YapdotfunError::Underflow));
    assert_eq!(ledger.debit(false, 7, 3), Err(YapdotfunError::Underflow));
    assert_eq!(ledger, before);
    assert_eq!(ledger.debit(false, 7, 2), Ok(()));
    assert_eq!(ledger.total_no_assets, 0);
    assert_eq!(ledger.total_no_shares, 0);
    assert_eq!(ledger.total_rewards, 6);
}

#[test]
fn a_position_without_shares_still_keeps_its_holder_from_buying() {
    let mut ctx = buying_at(200_000);
    ctx.market_voter = Some(MarketVoter {
        market_id: MARKET,
        voter: ALICE,
        vote: true,
        amount: 1_000_000,
        shares: 0,
    });
    let before = ctx;
    assert_eq!(
        handler(&mut ctx, true, 1_000_000, Ok(())),
        Err(YapdotfunError::PositionAlreadyExists)
    );
    assert_eq!(ctx, before);
}

#[test]
fn a_buy_whose_stake_was_not_transferred_is_undone() {
    let mut ctx = buying_at(200_000);
    let before = ctx;
    assert_eq!(
        handler(&mut ctx, true, 1_000_000, Err(TransferError {})),
        Err(YapdotfunError::TransferFailed)
    );
    assert_eq!(ctx, before);
    assert_eq!(handler(&mut ctx, true, 1_000_000, Ok(())), Ok(5));
}

#[test]
fn a_failed_transfer_is_reported_after_all_else() {
    let mut ctx = buying_at(200_000);
    assert_eq!(
        handler(&mut ctx, true, 0, Err(TransferError {})),
        Err(YapdotfunError::InvalidAmount)
    );
    ctx.market_metadata.total_rewards = u64::MAX;
    assert_eq!(
        handler(&mut ctx, true, 1, Err(TransferError {})),
        Err(YapdotfunError::Overflow)
    );
    ctx.market_metadata.status = MarketStatus::Closed;
    assert_eq!(
        handler(&mut ctx, true, 1, Err(TransferError {})),
        Err(YapdotfunError::MarketNotOpen)
    );
}

#[test]
fn a_quote_for_a_buy_leaves_the_records_alone() {
    let ctx = buying_at(200_000);
    let before = ctx;
    assert_eq!(quote(&ctx, false, 1_000_000), Ok(5));
    assert_eq!(quote(&ctx, false, 0), Err(YapdotfunError::InvalidAmount));
    assert_eq!(ctx, before);
}
