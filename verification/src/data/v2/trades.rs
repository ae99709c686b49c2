//! Trades.
use crate::error::ShapeError;
use crate::json::Json;
use crate::json::JsonValue;
use crate::json::Number;
use crate::json::lemma_member_found;
use crate::json::members_view;
use vstd::prelude::*;

verus! {

/// A trade: one exchange of a symbol at a price.
///
/// On the wire a trade is an object with the members `t`, `p` and `s`.
#[derive(Clone, Debug, PartialEq, Eq)]
pub struct Trade {
    /// The time of the trade, as an RFC 3339 time stamp.
    pub timestamp: String,
    /// The price that was paid.
    pub price: Number,
    /// The number of shares that changed hands.
    pub size: u64,
}

/// The mathematical value of a [`Trade`].
pub struct TradeView {
    pub timestamp: Seq<char>,
    pub price: Number,
    pub size: u64,
}

impl View for Trade {
    type V = TradeView;

    open spec fn view(&self) -> TradeView {
        TradeView { timestamp: self.timestamp@, price: self.price, size: self.size }
    }
}

/// The trade that a document describes, or the first way in which the
/// document falls short of describing one.
pub open spec fn trade_of(json: JsonValue) -> Result<TradeView, ShapeError> {
    match (json.string_at("t"@), json.number_at("p"@), json.unsigned_at("s"@)) {
        (Err(e), _, _) => Err(e),
        (_, Err(e), _) => Err(e),
        (_, _, Err(e)) => Err(e),
        (Ok(timestamp), Ok(price), Ok(size)) => Ok(TradeView { timestamp, price, size }),
    }
}

/// The document that describes a trade.
pub open spec fn trade_json(trade: TradeView) -> JsonValue {
    JsonValue::Object(
        seq![
            ("t"@, JsonValue::String(trade.timestamp)),
            ("p"@, JsonValue::Number(trade.price)),
            ("s"@, JsonValue::Number(Number::PosInt(trade.size))),
        ],
    )
}

/// The trade that the member named `key` of an object describes. A
/// member that is absent or `null` stands for no trade.
pub open spec fn optional_trade(json: JsonValue, key: Seq<char>) -> Result<
    Option<TradeView>,
    ShapeError,
> {
    match json.optional(key) {
        Err(e) => Err(e),
        Ok(None) => Ok(None),
        Ok(Some(member)) => match trade_of(member) {
            Err(e) => Err(e),
            Ok(trade) => Ok(Some(trade)),
        },
    }
}

/// The document that describes a trade that may be absent.
pub open spec fn optional_trade_json(trade: Option<TradeView>) -> JsonValue {
    match trade {
        Some(trade) => trade_json(trade),
        None => JsonValue::Null,
    }
}

/// The value of a trade that may be absent.
pub open spec fn optional_trade_view(trade: Option<Trade>) -> Option<TradeView> {
    match trade {
        Some(trade) => Some(trade@),
        None => None,
    }
}

impl Trade {
    /// Reads a trade from the document that describes it.
    pub fn from_json(json: &Json) -> (r: Result<Trade, ShapeError>)
        ensures
            r matches Ok(trade) ==> trade_of(json@) == Ok::<_, ShapeError>(trade@),
            r matches Err(e) ==> trade_of(json@) == Err::<TradeView, _>(e),
    {
        let timestamp = json.string_at("t")?;
        let price = json.number_at("p")?;
        let size = json.unsigned_at("s")?;
        Ok(Trade { timestamp, price, size })
    }

    /// Reads the trade that the member named `key` of an object
    /// describes, if the member is there and not `null`.
    pub fn optional_at(json: &Json, key: &str) -> (r: Result<Option<Trade>, ShapeError>)
        ensures
            r matches Ok(trade) ==> optional_trade(json@, key@) == Ok::<_, ShapeError>(
                optional_trade_view(trade),
            ),
            r matches Err(e) ==> optional_trade(json@, key@) == Err::<Option<TradeView>, _>(e),
    {
        match json.optional(key)? {
            Some(member) => Ok(Some(Trade::from_json(member)?)),
            None => Ok(None),
        }
    }

    /// The document that describes a trade that may be absent.
    pub fn optional_to_json(trade: &Option<Trade>) -> (json: Json)
        ensures
            json@ == optional_trade_json(optional_trade_view(*trade)),
    {
        match trade {
            Some(trade) => trade.to_json(),
            None => Json::Null,
        }
    }

    /// The document that describes this trade.
    pub fn to_json(&self) -> (json: Json)
        ensures
            json@ == trade_json(self@),
    {
        let mut members: Vec<(String, Json)> = Vec::new();
        Json::push_member(&mut members, "t", Json::String(self.timestamp.clone()));
        Json::push_member(&mut members, "p", Json::Number(self.price));
        Json::push_member(&mut members, "s", Json::Number(Number::PosInt(self.size)));
        assert(members_view(members@) =~= trade_json(self@)->Object_0);
        Json::object(members)
    }
}

/// A trade is read back unchanged from the document that describes it.
pub proof fn lemma_trade_round_trip(trade: TradeView)
    ensures
        trade_of(trade_json(trade)) == Ok::<_, ShapeError>(trade),
{
    reveal_strlit("t");
    reveal_strlit("p");
    reveal_strlit("s");
    assert("t"@[0] == 't' && "p"@[0] == 'p' && "s"@[0] == 's');
    let members = trade_json(trade)->Object_0;
    lemma_member_found(members, "t"@, 0);
    lemma_member_found(members, "p"@, 1);
    lemma_member_found(members, "s"@, 2);
}

} // verus!
