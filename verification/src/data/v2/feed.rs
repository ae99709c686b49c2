//! Selectors for the source that market data is drawn from.
use vstd::prelude::*;

verus! {

/// An enumeration of the different supported data feeds.
#[derive(Copy, Clone, Debug, Eq, PartialEq, Structural)]
#[non_exhaustive]
pub enum Feed {
    /// Use the Investors Exchange (IEX) as the data source.
    ///
    /// This feed is available unconditionally, i.e., with the free and
    /// unlimited plans.
    IEX,
    /// Use CTA (administered by NYSE) and UTP (administered by Nasdaq)
    /// SIPs as the data source.
    ///
    /// This feed is only usable with the unlimited market data plan.
    SIP,
}

impl Feed {
    /// The token that names this feed on the wire.
    pub open spec fn token(self) -> Seq<char> {
        match self {
            Feed::IEX => "iex"@,
            Feed::SIP => "sip"@,
        }
    }

    /// The token that names this feed on the wire.
    pub fn as_str(&self) -> (s: &'static str)
        ensures
            s@ == self.token(),
    {
        match self {
            Feed::IEX => "iex",
            Feed::SIP => "sip",
        }
    }
}

/// An enumeration of the different supported crypto data feeds
#[derive(Copy, Clone, Debug, Eq, PartialEq, Structural)]
#[non_exhaustive]
pub enum CryptoLocation {
    /// Use the Alpaca US crypto data feed.
    AlpacaUS,
    /// Use the Kraken US crypto data feed.
    KrakenUS,
    /// Use the Kraken EU crypto data feed.
    KrakenEU,
}

impl CryptoLocation {
    /// The token that names this location on the wire.
    pub open spec fn token(self) -> Seq<char> {
        match self {
            CryptoLocation::AlpacaUS => "us"@,
            CryptoLocation::KrakenUS => "us-1"@,
            CryptoLocation::KrakenEU => "eu-1"@,
        }
    }

    /// The token that names this location on the wire.
    pub fn as_str(&self) -> (s: &'static str)
        ensures
            s@ == self.token(),
    {
        match self {
            CryptoLocation::AlpacaUS => "us",
            CryptoLocation::KrakenUS => "us-1",
            CryptoLocation::KrakenEU => "eu-1",
        }
    }

    /// The token of this location as an owned string.
    pub fn to_string(&self) -> (s: String)
        ensures
            s@ == self.token(),
    {
        self.as_str().to_string()
    }
}

/// Every feed is named by one of the two lowercase tokens `iex` and
/// `sip`, and no two feeds share a token.
pub proof fn lemma_feed_tokens(a: Feed, b: Feed)
    ensures
        a.token() == seq!['i', 'e', 'x'] || a.token() == seq!['s', 'i', 'p'],
        a.token() == b.token() <==> a == b,
{
    reveal_strlit("iex");
    reveal_strlit("sip");
    assert("iex"@ =~= seq!['i', 'e', 'x']);
    assert("sip"@ =~= seq!['s', 'i', 'p']);
    assert(seq!['i', 'e', 'x'][0] != seq!['s', 'i', 'p'][0]);
}

/// Every crypto location is named by one of the three lowercase tokens
/// `us`, `us-1` and `eu-1`, and no two locations share a token.
pub proof fn lemma_crypto_location_tokens(a: CryptoLocation, b: CryptoLocation)
    ensures
        a.token() == seq!['u', 's'] || a.token() == seq!['u', 's', '-', '1'] || a.token()
            == seq!['e', 'u', '-', '1'],
        a.token() == b.token() <==> a == b,
{
    reveal_strlit("us");
    reveal_strlit("us-1");
    reveal_strlit("eu-1");
    assert("us"@ =~= seq!['u', 's']);
    assert("us-1"@ =~= seq!['u', 's', '-', '1']);
    assert("eu-1"@ =~= seq!['e', 'u', '-', '1']);
    assert(seq!['u', 's'].len() != seq!['u', 's', '-', '1'].len());
    assert(seq!['u', 's'].len() != seq!['e', 'u', '-', '1'].len());
    assert(seq!['u', 's', '-', '1'][0] != seq!['e', 'u', '-', '1'][0]);
}

} // verus!
