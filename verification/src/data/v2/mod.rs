//! Version 2 of the market data API.
pub mod bars;
pub mod feed;
pub mod quotes;
pub mod snapshots;
pub mod trades;

pub use feed::CryptoLocation;
pub use feed::Feed;
