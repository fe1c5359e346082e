//! The instructions of the market, each on the records that it touches.

pub mod buy;
pub mod initialize_market;
pub mod sell;
