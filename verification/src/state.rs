//! The records that are kept for every market.

pub mod market;
