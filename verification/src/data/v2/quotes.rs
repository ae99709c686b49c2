//! Quotes.
use crate::error::ShapeError;
use crate::json::Json;
use crate::json::JsonValue;
use crate::json::Number;
use crate::json::lemma_member_found;
use crate::json::members_view;
use vstd::prelude::*;

verus! {

/// A quote: the best prices at which a symbol is on offer and asked
/// for at some point in time.
///
/// On the wire a quote is an object with the members `t`, `ap`, `as`,
/// `bp` and `bs`.
#[derive(Clone, Debug, PartialEq, Eq)]
pub struct Quote {
    /// The time of the quote, as an RFC 3339 time stamp.
    pub time: String,
    /// The ask price.
    pub ask_price: Number,
    /// The ask size.
    pub ask_size: u64,
    /// The bid price.
    pub bid_price: Number,
    /// The bid size.
    pub bid_size: u64,
}

/// The mathematical value of a [`Quote`].
pub struct QuoteView {
    pub time: Seq<char>,
    pub ask_price: Number,
    pub ask_size: u64,
    pub bid_price: Number,
    pub bid_size: u64,
}

impl View for Quote {
    type V = QuoteView;

    open spec fn view(&self) -> QuoteView {
        QuoteView {
            time: self.time@,
            ask_price: self.ask_price,
            ask_size: self.ask_size,
            bid_price: self.bid_price,
            bid_size: self.bid_size,
        }
    }
}

/// The quote that a document describes, or the first way in which the
/// document falls short of describing one.
pub open spec fn quote_of(json: JsonValue) -> Result<QuoteView, ShapeError> {
    match (
        json.string_at("t"@),
        json.number_at("ap"@),
        json.unsigned_at("as"@),
        json.number_at("bp"@),
        json.unsigned_at("bs"@),
    ) {
        (Err(e), _, _, _, _) => Err(e),
        (_, Err(e), _, _, _) => Err(e),
        (_, _, Err(e), _, _) => Err(e),
        (_, _, _, Err(e), _) => Err(e),
        (_, _, _, _, Err(e)) => Err(e),
        (Ok(time), Ok(ask_price), Ok(ask_size), Ok(bid_price), Ok(bid_size)) => Ok(
            QuoteView { time, ask_price, ask_size, bid_price, bid_size },
        ),
    }
}

/// The document that describes a quote.
pub open spec fn quote_json(quote: QuoteView) -> JsonValue {
    JsonValue::Object(
        seq![
            ("t"@, JsonValue::String(quote.time)),
            ("ap"@, JsonValue::Number(quote.ask_price)),
            ("as"@, JsonValue::Number(Number::PosInt(quote.ask_size))),
            ("bp"@, JsonValue::Number(quote.bid_price)),
            ("bs"@, JsonValue::Number(Number::PosInt(quote.bid_size))),
        ],
    )
}

/// The quote that the member named `key` of an object describes. A
/// member that is absent or `null` stands for no quote.
pub open spec fn optional_quote(json: JsonValue, key: Seq<char>) -> Result<
    Option<QuoteView>,
    ShapeError,
> {
    match json.optional(key) {
        Err(e) => Err(e),
        Ok(None) => Ok(None),
        Ok(Some(member)) => match quote_of(member) {
            Err(e) => Err(e),
            Ok(quote) => Ok(Some(quote)),
        },
    }
}

/// The document that describes a quote that may be absent.
pub open spec fn optional_quote_json(quote: Option<QuoteView>) -> JsonValue {
    match quote {
        Some(quote) => quote_json(quote),
        None => JsonValue::Null,
    }
}

/// The value of a quote that may be absent.
pub open spec fn optional_quote_view(quote: Option<Quote>) -> Option<QuoteView> {
    match quote {
        Some(quote) => Some(quote@),
        None => None,
    }
}

impl Quote {
    /// Reads a quote from the document that describes it.
    pub fn from_json(json: &Json) -> (r: Result<Quote, ShapeError>)
        ensures
            r matches Ok(quote) ==> quote_of(json@) == Ok::<_, ShapeError>(quote@),
            r matches Err(e) ==> quote_of(json@) == Err::<QuoteView, _>(e),
    {
        let time = json.string_at("t")?;
        let ask_price = json.number_at("ap")?;
        let ask_size = json.unsigned_at("as")?;
        let bid_price = json.number_at("bp")?;
        let bid_size = json.unsigned_at("bs")?;
        Ok(Quote { time, ask_price, ask_size, bid_price, bid_size })
    }

    /// Reads the quote that the member named `key` of an object
    /// describes, if the member is there and not `null`.
    pub fn optional_at(json: &Json, key: &str) -> (r: Result<Option<Quote>, ShapeError>)
        ensures
            r matches Ok(quote) ==> optional_quote(json@, key@) == Ok::<_, ShapeError>(
                optional_quote_view(quote),
            ),
            r matches Err(e) ==> optional_quote(json@, key@) == Err::<Option<QuoteView>, _>(e),
    {
        match json.optional(key)? {
            Some(member) => Ok(Some(Quote::from_json(member)?)),
            None => Ok(None),
        }
    }

    /// The document that describes a quote that may be absent.
    pub fn optional_to_json(quote: &Option<Quote>) -> (json: Json)
        ensures
            json@ == optional_quote_json(optional_quote_view(*quote)),
    {
        match quote {
            Some(quote) => quote.to_json(),
            None => Json::Null,
        }
    }

    /// The document that describes this quote.
    pub fn to_json(&self) -> (json: Json)
        ensures
            json@ == quote_json(self@),
    {
        let mut members: Vec<(String, Json)> = Vec::new();
        Json::push_member(&mut members, "t", Json::String(self.time.clone()));
        Json::push_member(&mut members, "ap", Json::Number(self.ask_price));
        Json::push_member(&mut members, "as", Json::Number(Number::PosInt(self.ask_size)));
        Json::push_member(&mut members, "bp", Json::Number(self.bid_price));
        Json::push_member(&mut members, "bs", Json::Number(Number::PosInt(self.bid_size)));
        assert(members_view(members@) =~= quote_json(self@)->Object_0);
        Json::object(members)
    }
}

/// A quote is read back unchanged from the document that describes it.
pub proof fn lemma_quote_round_trip(quote: QuoteView)
    ensures
        quote_of(quote_json(quote)) == Ok::<_, ShapeError>(quote),
{
    reveal_strlit("t");
    reveal_strlit("ap");
    reveal_strlit("as");
    reveal_strlit("bp");
    reveal_strlit("bs");
    assert("t"@.len() == 1 && "ap"@[0] == 'a' && "ap"@[1] == 'p' && "as"@[0] == 'a' && "as"@[1]
        == 's' && "bp"@[0] == 'b' && "bp"@[1] == 'p' && "bs"@[0] == 'b' && "bs"@[1] == 's');
    let members = quote_json(quote)->Object_0;
    lemma_member_found(members, "t"@, 0);
    lemma_member_found(members, "ap"@, 1);
    lemma_member_found(members, "as"@, 2);
    lemma_member_found(members, "bp"@, 3);
    lemma_member_found(members, "bs"@, 4);
}

} // verus!
