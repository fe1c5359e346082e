//! Bringing a market into being.

use vstd::prelude::*;
use vstd::slice::slice_to_vec;
use vstd::utf8::encode_utf8;
use crate::errors::YapdotfunError;
use crate::events::MarketInitializedEvent;
use crate::state::market::{Market, MarketId, MarketMetadata, ParticipantId, MAX_DESCRIPTION_LEN};

verus! {

/// The SHA-256 digest of a sequence of bytes.
pub uninterp spec fn sha256_digest(data: Seq<u8>) -> Seq<u8>;

/// `anchor_lang::solana_program::hash::hash`, followed by `Hash::to_bytes`:
/// the 32 bytes of the SHA-256 digest of `data`. The digest is taken on trust;
/// nothing here says which bytes it holds.
#[verifier::external_body]
fn sha256(data: &[u8]) -> (digest: [u8; 32])
    ensures
        digest@ == sha256_digest(data@),
{
    anchor_lang::solana_program::hash::hash(data).to_bytes()
}

/// The bytes that identify the market with the given description: the SHA-256
/// digest of the description's UTF-8 encoding. Two markets with the same
/// description have the same identifier.
pub open spec fn market_id_of(description: Seq<char>) -> Seq<u8> {
    sha256_digest(encode_utf8(description))
}

/// The identifier of the market with the given description.
pub open spec fn market_id_for(description: Seq<char>) -> MarketId {
    choose|market_id: MarketId| market_id@ == market_id_of(description)
}

/// The identifier of the market with the given description.
pub fn derive_market_id(description: &str) -> (market_id: MarketId)
    ensures
        market_id@ == market_id_of(description@),
        market_id == market_id_for(description@),
{
    let market_id = sha256(description.as_bytes());
    assert(market_id =~= market_id_for(description@));
    market_id
}

/// Hashing of a text.
pub trait StringExt {
    /// The SHA-256 digest of the text's bytes.
    fn to_hashed_bytes(&self) -> Vec<u8>;
}

impl StringExt for String {
    fn to_hashed_bytes(&self) -> (bytes: Vec<u8>)
        ensures
            bytes@ == market_id_of(self@),
            bytes@.len() == 32,
    {
        let digest = sha256(self.as_str().as_bytes());
        slice_to_vec(digest.as_slice())
    }
}

/// The records that the initialization of a market works on: the two places,
/// found under the market's identifier, where its description and its ledger
/// are to be kept.
#[derive(Debug, PartialEq, Eq)]
pub struct InitializeMarket {
    /// The identifier derived from the description of the market.
    pub market_id: MarketId,
    /// What is recorded as the market's description so far.
    pub market: Option<Market>,
    /// What is recorded as the market's ledger so far.
    pub market_metadata: Option<MarketMetadata>,
    /// The participant who initializes the market.
    pub signer: ParticipantId,
}

impl InitializeMarket {
    /// Nothing is recorded under the identifier yet.
    pub open spec fn vacant(self) -> bool {
        self.market is None && self.market_metadata is None
    }

    /// The working set after the market has been initialized: it carries the
    /// description, and its ledger is open and empty.
    pub open spec fn initialized(
        self,
        description: String,
        created_at: u64,
        expected_resolution_date: Option<u64>,
    ) -> InitializeMarket {
        InitializeMarket {
            market: Some(
                Market {
                    market_id: self.market_id,
                    description,
                    initializer: self.signer,
                    created_at,
                    expected_resolution_date,
                },
            ),
            market_metadata: Some(MarketMetadata::empty(self.market_id)),
            ..self
        }
    }
}

/// Initializes the market: records its description and an open, empty ledger,
/// and returns the announcement of the new market. Where something is recorded
/// under the identifier already, the market exists, and nothing is changed.
pub fn handler(
    ctx: &mut InitializeMarket,
    description: String,
    created_at: u64,
    expected_resolution_date: Option<u64>,
) -> (result: Result<MarketInitializedEvent, YapdotfunError>)
    requires
        encode_utf8(description@).len() <= MAX_DESCRIPTION_LEN,
    ensures
        old(ctx).vacant() ==> result is Ok && result->Ok_0.announces(
            old(ctx).market_id,
            old(ctx).signer,
        ) && *final(ctx) == old(ctx).initialized(description, created_at, expected_resolution_date),
        !old(ctx).vacant() ==> result is Err && result->Err_0 == YapdotfunError::MarketAlreadyExists
            && *final(ctx) == *old(ctx),
        final(ctx).market is Some && old(ctx).market is None ==> final(ctx).market->0.wf(),
{
    if ctx.market.is_some() || ctx.market_metadata.is_some() {
        return Err(YapdotfunError::MarketAlreadyExists);
    }
    ctx.market = Some(
        Market {
            market_id: ctx.market_id,
            description,
            initializer: ctx.signer,
            created_at,
            expected_resolution_date,
        },
    );
    ctx.market_metadata = Some(MarketMetadata::new(ctx.market_id));
    Ok(MarketInitializedEvent::new(ctx.market_id, ctx.signer))
}

} // verus!
