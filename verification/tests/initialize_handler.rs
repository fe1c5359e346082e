use yapdotfun::errors::YapdotfunError;
use yapdotfun::events::MarketInitializedEvent;
use yapdotfun::instructions::initialize_market::{handler, InitializeMarket};
use yapdotfun::state::market::{Market, MarketMetadata, MarketStatus};

const MARKET: [u8; 32] = [3; 32];
const CAROL: [u8; 32] = [4; 32];

fn vacant_places() -> InitializeMarket {
    InitializeMarket { market_id: MARKET, market: None, market_metadata: None, signer: CAROL }
}

#[test]
fn initializing_records_the_description_and_an_empty_ledger() {
    let mut ctx = vacant_places();
    let event = handler(
        &mut ctx,
        String::from("Will it rain tomorrow?"),
        1_700_000_000,
        Some(1_800_000_000),
    );
    assert_eq!(
        event,
        Ok(MarketInitializedEvent {
            message: String::from("New market was initialized!"),
            market_id: MARKET,
            initializer: CAROL,
        })
    );
    assert_eq!(
        ctx,
        InitializeMarket {
            market_id: MARKET,
            market: Some(Market {
                market_id: MARKET,
                description: String::from("Will it rain tomorrow?"),
                initializer: CAROL,
                created_at: 1_700_000_000,
                expected_resolution_date: Some(1_800_000_000),
            }),
            market_metadata: Some(MarketMetadata {
                market_id: MARKET,
                status: MarketStatus::Open,
                total_yes_assets: 0,
                total_no_assets: 0,
                total_yes_shares: 0,
                total_no_shares: 0,
                total_rewards: 0,
            }),
            signer: CAROL,
        }
    );
}

#[test]
fn initializing_without_a_date_records_none() {
    let mut ctx = vacant_places();
    assert!(handler(&mut ctx, String::new(), 0, None).is_ok());
    let market = ctx.market.expect("a market");
    assert_eq!(market.expected_resolution_date, None);
    assert_eq!(market.created_at, 0);
    assert_eq!(market.description, "");
}

#[test]
fn initializing_what_is_recorded_is_refused() {
    let mut ctx = vacant_places();
    assert!(handler(&mut ctx, String::from("Will it rain tomorrow?"), 1, None).is_ok());
    let market = ctx.market.take();
    let ledger = ctx.market_metadata.take();

    let mut taken = InitializeMarket {
        market_id: MARKET,
        market,
        market_metadata: ledger,
        signer: CAROL,
    };
    assert_eq!(
        handler(&mut taken, String::from("Will it snow tomorrow?"), 2, Some(3)),
        Err(YapdotfunError::MarketAlreadyExists)
    );
    assert_eq!(taken.market.as_ref().expect("a market").description, "Will it rain tomorrow?");
    assert_eq!(taken.market.as_ref().expect("a market").created_at, 1);
    assert_eq!(taken.market_metadata, Some(MarketMetadata::new(MARKET)));
}

#[test]
fn initializing_where_only_a_ledger_is_recorded_is_refused() {
    let mut ctx = vacant_places();
    ctx.market_metadata = Some(MarketMetadata::new(MARKET));
    assert_eq!(
        handler(&mut ctx, String::from("Will it rain tomorrow?"), 1, None),
        Err(YapdotfunError::MarketAlreadyExists)
    );
    assert_eq!(ctx.market, None);
    assert_eq!(ctx.market_metadata, Some(MarketMetadata::new(MARKET)));
}

#[test]
fn an_announcement_names_the_market_and_who_initialized_it() {
    let event = MarketInitializedEvent::new(MARKET, CAROL);
    assert_eq!(event.message, "New market was initialized!");
    assert_eq!(event.market_id, MARKET);
    assert_eq!(event.initializer, CAROL);
}
