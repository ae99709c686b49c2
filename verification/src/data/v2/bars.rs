//! Price bars.
use crate::error::ShapeError;
use crate::json::Json;
use crate::json::JsonValue;
use crate::json::Number;
use crate::json::lemma_member_found;
use crate::json::members_view;
use vstd::prelude::*;

verus! {

/// A market data bar: the prices a symbol traded at over a span of
/// time, and how much of it changed hands.
///
/// On the wire a bar is an object with the members `t`, `o`, `h`, `l`,
/// `c` and `v`.
#[derive(Clone, Debug, PartialEq, Eq)]
pub struct Bar {
    /// The beginning of the span, as an RFC 3339 time stamp.
    pub time: String,
    /// The opening price.
    pub open: Number,
    /// The highest price.
    pub high: Number,
    /// The lowest price.
    pub low: Number,
    /// The closing price.
    pub close: Number,
    /// The trading volume.
    pub volume: u64,
}

/// The mathematical value of a [`Bar`].
pub struct BarView {
    pub time: Seq<char>,
    pub open: Number,
    pub high: Number,
    pub low: Number,
    pub close: Number,
    pub volume: u64,
}

impl View for Bar {
    type V = BarView;

    open spec fn view(&self) -> BarView {
        BarView {
            time: self.time@,
            open: self.open,
            high: self.high,
            low: self.low,
            close: self.close,
            volume: self.volume,
        }
    }
}

/// The bar that a document describes, or the first way in which the
/// document falls short of describing one.
pub open spec fn bar_of(json: JsonValue) -> Result<BarView, ShapeError> {
    match (
        json.string_at("t"@),
        json.number_at("o"@),
        json.number_at("h"@),
        json.number_at("l"@),
        json.number_at("c"@),
        json.unsigned_at("v"@),
    ) {
        (Err(e), _, _, _, _, _) => Err(e),
        (_, Err(e), _, _, _, _) => Err(e),
        (_, _, Err(e), _, _, _) => Err(e),
        (_, _, _, Err(e), _, _) => Err(e),
        (_, _, _, _, Err(e), _) => Err(e),
        (_, _, _, _, _, Err(e)) => Err(e),
        (Ok(time), Ok(open), Ok(high), Ok(low), Ok(close), Ok(volume)) => Ok(
            BarView { time, open, high, low, close, volume },
        ),
    }
}

/// The document that describes a bar.
pub open spec fn bar_json(bar: BarView) -> JsonValue {
    JsonValue::Object(
        seq![
            ("t"@, JsonValue::String(bar.time)),
            ("o"@, JsonValue::Number(bar.open)),
            ("h"@, JsonValue::Number(bar.high)),
            ("l"@, JsonValue::Number(bar.low)),
            ("c"@, JsonValue::Number(bar.close)),
            ("v"@, JsonValue::Number(Number::PosInt(bar.volume))),
        ],
    )
}

/// The bar that the member named `key` of an object describes. A
/// member that is absent or `null` stands for no bar.
pub open spec fn optional_bar(json: JsonValue, key: Seq<char>) -> Result<
    Option<BarView>,
    ShapeError,
> {
    match json.optional(key) {
        Err(e) => Err(e),
        Ok(None) => Ok(None),
        Ok(Some(member)) => match bar_of(member) {
            Err(e) => Err(e),
            Ok(bar) => Ok(Some(bar)),
        },
    }
}

/// The document that describes a bar that may be absent.
pub open spec fn optional_bar_json(bar: Option<BarView>) -> JsonValue {
    match bar {
        Some(bar) => bar_json(bar),
        None => JsonValue::Null,
    }
}

/// The value of a bar that may be absent.
pub open spec fn optional_bar_view(bar: Option<Bar>) -> Option<BarView> {
    match bar {
        Some(bar) => Some(bar@),
        None => None,
    }
}

impl Bar {
    /// Reads a bar from the document that describes it.
    pub fn from_json(json: &Json) -> (r: Result<Bar, ShapeError>)
        ensures
            r matches Ok(bar) ==> bar_of(json@) == Ok::<_, ShapeError>(bar@),
            r matches Err(e) ==> bar_of(json@) == Err::<BarView, _>(e),
    {
        let time = json.string_at("t")?;
        let open = json.number_at("o")?;
        let high = json.number_at("h")?;
        let low = json.number_at("l")?;
        let close = json.number_at("c")?;
        let volume = json.unsigned_at("v")?;
        Ok(Bar { time, open, high, low, close, volume })
    }

    /// Reads the bar that the member named `key` of an object
    /// describes, if the member is there and not `null`.
    pub fn optional_at(json: &Json, key: &str) -> (r: Result<Option<Bar>, ShapeError>)
        ensures
            r matches Ok(bar) ==> optional_bar(json@, key@) == Ok::<_, ShapeError>(
                optional_bar_view(bar),
            ),
            r matches Err(e) ==> optional_bar(json@, key@) == Err::<Option<BarView>, _>(e),
    {
        match json.optional(key)? {
            Some(member) => Ok(Some(Bar::from_json(member)?)),
            None => Ok(None),
        }
    }

    /// The document that describes a bar that may be absent.
    pub fn optional_to_json(bar: &Option<Bar>) -> (json: Json)
        ensures
            json@ == optional_bar_json(optional_bar_view(*bar)),
    {
        match bar {
            Some(bar) => bar.to_json(),
            None => Json::Null,
        }
    }

    /// The document that describes this bar.
    pub fn to_json(&self) -> (json: Json)
        ensures
            json@ == bar_json(self@),
    {
        let mut members: Vec<(String, Json)> = Vec::new();
        Json::push_member(&mut members, "t", Json::String(self.time.clone()));
        Json::push_member(&mut members, "o", Json::Number(self.open));
        Json::push_member(&mut members, "h", Json::Number(self.high));
        Json::push_member(&mut members, "l", Json::Number(self.low));
        Json::push_member(&mut members, "c", Json::Number(self.close));
        Json::push_member(&mut members, "v", Json::Number(Number::PosInt(self.volume)));
        assert(members_view(members@) =~= bar_json(self@)->Object_0);
        Json::object(members)
    }
}

/// A bar is read back unchanged from the document that describes it.
pub proof fn lemma_bar_round_trip(bar: BarView)
    ensures
        bar_of(bar_json(bar)) == Ok::<_, ShapeError>(bar),
{
    reveal_strlit("t");
    reveal_strlit("o");
    reveal_strlit("h");
    reveal_strlit("l");
    reveal_strlit("c");
    reveal_strlit("v");
    assert("t"@[0] == 't' && "o"@[0] == 'o' && "h"@[0] == 'h' && "l"@[0] == 'l' && "c"@[0] == 'c'
        && "v"@[0] == 'v');
    let members = bar_json(bar)->Object_0;
    lemma_member_found(members, "t"@, 0);
    lemma_member_found(members, "o"@, 1);
    lemma_member_found(members, "h"@, 2);
    lemma_member_found(members, "l"@, 3);
    lemma_member_found(members, "c"@, 4);
    lemma_member_found(members, "v"@, 5);
}

} // verus!
