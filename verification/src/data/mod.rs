//! Definitions pertaining the market data API.
use vstd::prelude::*;

pub mod v2;

verus! {

/// The host that serves market data.
pub const DATA_BASE_URL: &'static str = "https://data.alpaca.markets";

} // verus!
