//! Snapshots: the latest trade, quote and bars of a set of symbols.
use crate::data::DATA_BASE_URL;
use crate::data::v2::bars::Bar;
use crate::data::v2::bars::BarView;
use crate::data::v2::bars::optional_bar;
use crate::data::v2::bars::optional_bar_json;
use crate::data::v2::bars::optional_bar_view;
use crate::data::v2::feed::Feed;
use crate::data::v2::quotes::Quote;
use crate::data::v2::quotes::QuoteView;
use crate::data::v2::quotes::optional_quote;
use crate::data::v2::quotes::optional_quote_json;
use crate::data::v2::quotes::optional_quote_view;
use crate::data::v2::trades::Trade;
use crate::data::v2::trades::TradeView;
use crate::data::v2::trades::optional_trade;
use crate::data::v2::trades::optional_trade_json;
use crate::data::v2::trades::optional_trade_view;
use crate::endpoint::ApiError;
use crate::endpoint::Endpoint;
use crate::endpoint::EndpointError;
use crate::endpoint::Outcome;
use crate::endpoint::StatusEntry;
use crate::endpoint::api_error_parsed;
use crate::endpoint::lemma_lookup_listed;
use crate::endpoint::lemma_lookup_unlisted;
use crate::endpoint::lookup;
use crate::error::ConversionError;
use crate::error::ShapeError;
use crate::json::Json;
use crate::json::JsonValue;
use crate::json::distinct_keys;
use crate::json::json_text;
use crate::json::lemma_object_view;
use crate::json::members_view;
use crate::urlencoded::escaped;
use crate::urlencoded::form_text;
use crate::urlencoded::is_plain;
use crate::urlencoded::lemma_escaped_no_separator;
use crate::urlencoded::lemma_plain_text;
use crate::urlencoded::pair_text;
use crate::util::joined;
use crate::util::occurs_in;
use crate::util::string_slice_to_str;
use vstd::prelude::*;
use vstd::utf8::encode_utf8;

verus! {

/// The latest trade, the latest quote, the minute bar, the daily bar
/// and the previous daily bar of one symbol.
///
/// Each part is absent where the feed has no recent data for the
/// symbol. On the wire a snapshot is an object with the members
/// `dailyBar`, `latestQuote`, `latestTrade`, `minuteBar` and
/// `prevDailyBar`, each of which may be `null` or missing.
#[derive(Clone, Debug, PartialEq, Eq)]
pub struct Snapshot {
    /// The daily bar data.
    pub daily_bar: Option<Bar>,
    /// The latest quote data.
    pub latest_quote: Option<Quote>,
    /// The latest trade data.
    pub latest_trade: Option<Trade>,
    /// The minute bar data.
    pub minute_bar: Option<Bar>,
    /// The previous daily bar data.
    pub prev_daily_bar: Option<Bar>,
}

/// The mathematical value of a [`Snapshot`].
pub struct SnapshotView {
    pub daily_bar: Option<BarView>,
    pub latest_quote: Option<QuoteView>,
    pub latest_trade: Option<TradeView>,
    pub minute_bar: Option<BarView>,
    pub prev_daily_bar: Option<BarView>,
}

impl View for Snapshot {
    type V = SnapshotView;

    open spec fn view(&self) -> SnapshotView {
        SnapshotView {
            daily_bar: optional_bar_view(self.daily_bar),
            latest_quote: optional_quote_view(self.latest_quote),
            latest_trade: optional_trade_view(self.latest_trade),
            minute_bar: optional_bar_view(self.minute_bar),
            prev_daily_bar: optional_bar_view(self.prev_daily_bar),
        }
    }
}

impl DeepView for Snapshot {
    type V = SnapshotView;

    open spec fn deep_view(&self) -> SnapshotView {
        self@
    }
}

/// The snapshot that a document describes, or the first way in which
/// the document falls short of describing one.
pub open spec fn snapshot_of(json: JsonValue) -> Result<SnapshotView, ShapeError> {
    match (
        optional_bar(json, "dailyBar"@),
        optional_quote(json, "latestQuote"@),
        optional_trade(json, "latestTrade"@),
        optional_bar(json, "minuteBar"@),
        optional_bar(json, "prevDailyBar"@),
    ) {
        (Err(e), _, _, _, _) => Err(e),
        (_, Err(e), _, _, _) => Err(e),
        (_, _, Err(e), _, _) => Err(e),
        (_, _, _, Err(e), _) => Err(e),
        (_, _, _, _, Err(e)) => Err(e),
        (
            Ok(daily_bar),
            Ok(latest_quote),
            Ok(latest_trade),
            Ok(minute_bar),
            Ok(prev_daily_bar),
        ) => Ok(SnapshotView { daily_bar, latest_quote, latest_trade, minute_bar, prev_daily_bar }),
    }
}

/// The document that describes a snapshot. A part that is absent is
/// written as `null`.
pub open spec fn snapshot_json(snapshot: SnapshotView) -> JsonValue {
    JsonValue::Object(
        seq![
            ("dailyBar"@, optional_bar_json(snapshot.daily_bar)),
            ("latestQuote"@, optional_quote_json(snapshot.latest_quote)),
            ("latestTrade"@, optional_trade_json(snapshot.latest_trade)),
            ("minuteBar"@, optional_bar_json(snapshot.minute_bar)),
            ("prevDailyBar"@, optional_bar_json(snapshot.prev_daily_bar)),
        ],
    )
}

/// The snapshots that the members of an object describe, each with the
/// key that it stands under, in the order of the members; or the first
/// way in which a member falls short of describing a snapshot.
pub open spec fn entries_of(members: Seq<(Seq<char>, JsonValue)>) -> Result<
    Seq<(Seq<char>, SnapshotView)>,
    ShapeError,
>
    decreases members.len(),
{
    if members.len() == 0 {
        Ok(Seq::empty())
    } else {
        match entries_of(members.drop_last()) {
            Err(e) => Err(e),
            Ok(entries) => match snapshot_of(members.last().1) {
                Err(e) => Err(e),
                Ok(snapshot) => Ok(entries.push((members.last().0, snapshot))),
            },
        }
    }
}

/// The snapshots that a document describes: it has to be an object
/// whose members are snapshots, each under the symbol that it is about.
pub open spec fn snapshots_of(json: JsonValue) -> Result<
    Seq<(Seq<char>, SnapshotView)>,
    ShapeError,
> {
    match json {
        JsonValue::Object(members) => entries_of(members),
        _ => Err(ShapeError::ExpectedObject),
    }
}

impl Snapshot {
    /// Reads a snapshot from the document that describes it.
    pub fn from_json(json: &Json) -> (r: Result<Snapshot, ShapeError>)
        ensures
            r matches Ok(snapshot) ==> snapshot_of(json@) == Ok::<_, ShapeError>(snapshot@),
            r matches Err(e) ==> snapshot_of(json@) == Err::<SnapshotView, _>(e),
    {
        let daily_bar = Bar::optional_at(json, "dailyBar")?;
        let latest_quote = Quote::optional_at(json, "latestQuote")?;
        let latest_trade = Trade::optional_at(json, "latestTrade")?;
        let minute_bar = Bar::optional_at(json, "minuteBar")?;
        let prev_daily_bar = Bar::optional_at(json, "prevDailyBar")?;
        Ok(Snapshot { daily_bar, latest_quote, latest_trade, minute_bar, prev_daily_bar })
    }

    /// The document that describes this snapshot.
    pub fn to_json(&self) -> (json: Json)
        ensures
            json@ == snapshot_json(self@),
    {
        let mut members: Vec<(String, Json)> = Vec::new();
        Json::push_member(&mut members, "dailyBar", Bar::optional_to_json(&self.daily_bar));
        Json::push_member(
            &mut members,
            "latestQuote",
            Quote::optional_to_json(&self.latest_quote),
        );
        Json::push_member(
            &mut members,
            "latestTrade",
            Trade::optional_to_json(&self.latest_trade),
        );
        Json::push_member(&mut members, "minuteBar", Bar::optional_to_json(&self.minute_bar));
        Json::push_member(
            &mut members,
            "prevDailyBar",
            Bar::optional_to_json(&self.prev_daily_bar),
        );
        assert(members_view(members@) =~= snapshot_json(self@)->Object_0);
        Json::object(members)
    }

    /// Reads the snapshots of a set of symbols from the document that
    /// describes them.
    ///
    /// The result holds one pair for every member of the document, in
    /// the order of the members: the symbol and its snapshot.
    pub fn list_from_json(json: &Json) -> (r: Result<Vec<(String, Snapshot)>, ShapeError>)
        ensures
            r matches Ok(list) ==> snapshots_of(json@) == Ok::<_, ShapeError>(list.deep_view()),
            r matches Err(e) ==> snapshots_of(json@) == Err::<Seq<(Seq<char>, SnapshotView)>, _>(
                e,
            ),
    {
        match json {
            Json::Object(members) => {
                let ghost all = members_view(members@);
                proof {
                    lemma_object_view(*members);
                }
                let mut list: Vec<(String, Snapshot)> = Vec::new();
                let mut i: usize = 0;
                assert(all.take(0) == Seq::<(Seq<char>, JsonValue)>::empty());
                assert(list.deep_view() == Seq::<(Seq<char>, SnapshotView)>::empty());
                while i < members.len()
                    invariant
                        i <= members@.len(),
                        all == members_view(members@),
                        json@ == JsonValue::Object(all),
                        entries_of(all.take(i as int)) == Ok::<_, ShapeError>(list.deep_view()),
                    decreases members.len() - i,
                {
                    proof {
                        assert(all.take(i as int + 1).drop_last() == all.take(i as int));
                        assert(all.take(i as int + 1).last() == all[i as int]);
                    }
                    match Snapshot::from_json(&members[i].1) {
                        Ok(snapshot) => {
                            let ghost before = list.deep_view();
                            list.push((members[i].0.clone(), snapshot));
                            assert(list.deep_view() == before.push((all[i as int].0, snapshot@)));
                        },
                        Err(e) => {
                            proof {
                                let read = all.take(i as int + 1);
                                assert(snapshot_of(read.last().1) == Err::<SnapshotView, _>(e));
                                assert(entries_of(read) == Err::<
                                    Seq<(Seq<char>, SnapshotView)>,
                                    _,
                                >(e));
                                lemma_entries_fail(all, i as int + 1);
                            }
                            return Err(e);
                        },
                    }
                    i += 1;
                }
                assert(all.take(i as int) == all);
                Ok(list)
            },
            _ => Err(ShapeError::ExpectedObject),
        }
    }
}

/// A GET request to be issued to the /v2/stocks/snapshots endpoint.
#[derive(Clone, Debug, PartialEq, Eq)]
pub struct GetReq {
    /// The symbols to retrieve the snapshot for.
    pub symbols: Vec<String>,
    /// The data feed to use.
    pub feed: Option<Feed>,
}

/// The mathematical value of a [`GetReq`].
pub struct GetReqView {
    pub symbols: Seq<Seq<char>>,
    pub feed: Option<Feed>,
}

impl View for GetReq {
    type V = GetReqView;

    open spec fn view(&self) -> GetReqView {
        GetReqView { symbols: self.symbols.deep_view(), feed: self.feed }
    }
}

/// A helper struct for initializing [`GetReq`] objects.
///
/// It holds the parts of a request that a caller may leave out. More
/// of them may be added over time: a caller that starts from
/// [`GetReqInit::default`] and sets what it cares about keeps working
/// when that happens.
#[derive(Clone, Debug, PartialEq, Eq)]
pub struct GetReqInit {
    /// See `GetReq::feed`.
    pub feed: Option<Feed>,
}

impl Default for GetReqInit {
    /// The settings of a request that names no feed.
    fn default() -> (init: GetReqInit)
        ensures
            init.feed is None,
    {
        GetReqInit { feed: None }
    }
}

impl GetReqInit {
    /// Create a [`GetReq`] from a `GetReqInit`.
    ///
    /// The request asks for the given symbols, in the given order, and
    /// names the feed that `self` names.
    #[inline]
    pub fn init(self, symbols: Vec<String>) -> (req: GetReq)
        ensures
            req.symbols == symbols,
            req.feed == self.feed,
            req@ == (GetReqView { symbols: symbols.deep_view(), feed: self.feed }),
    {
        GetReq { symbols, feed: self.feed }
    }
}

/// The pairs that the query of a request is made of: the symbols,
/// joined by commas, under `symbols`; and the token of the feed under
/// `feed`, where the request names one.
pub open spec fn query_pairs(req: GetReqView) -> Seq<(Seq<char>, Seq<char>)> {
    let symbols = seq![("symbols"@, joined(req.symbols, ","@))];
    match req.feed {
        Some(feed) => symbols.push(("feed"@, feed.token())),
        None => symbols,
    }
}

/// The query of a request.
pub open spec fn query_text(req: GetReqView) -> Seq<char> {
    form_text(query_pairs(req))
}

/// The failures of a [`Get`] request that have a name.
#[derive(Copy, Clone, Debug, PartialEq, Eq, Structural)]
pub enum GetFailure {
    /// The provided symbol was invalid or not found or the data feed is
    /// not supported.
    InvalidInput,
}

/// The failure of a [`Get`] request.
pub type GetError = EndpointError<GetFailure, ApiError, ConversionError>;

/// The representation of a GET request to the /v2/stocks/snapshots endpoint.
#[derive(Copy, Clone, Debug)]
pub struct Get;

impl Endpoint for Get {
    type Input = GetReq;

    type Output = Vec<(String, Snapshot)>;

    type Failure = GetFailure;

    type ApiError = ApiError;

    type ConversionError = ConversionError;

    /// Status 200 stands for success and status 400 for invalid input.
    open spec fn statuses() -> Seq<StatusEntry<GetFailure>> {
        seq![
            StatusEntry { status: 200, outcome: Outcome::Success },
            StatusEntry { status: 400, outcome: Outcome::Failure(GetFailure::InvalidInput) },
        ]
    }

    /// A body that is no JSON document is a conversion error, and so
    /// is a document of another shape than a set of snapshots has. From
    /// every other body the snapshots that it describes are read.
    open spec fn parsed(body: Seq<u8>, r: Result<Vec<(String, Snapshot)>, ConversionError>) -> bool {
        match json_text(body) {
            None => r matches Err(ConversionError::Json(_)),
            Some(json) => match snapshots_of(json) {
                Err(e) => r matches Err(ConversionError::Shape(shape)) && shape == e,
                Ok(list) => r matches Ok(output) && output.deep_view() == list,
            },
        }
    }

    open spec fn parsed_err(body: Seq<u8>, r: Result<ApiError, Vec<u8>>) -> bool {
        api_error_parsed(body, r)
    }

    proof fn lemma_statuses() {
    }

    fn status_table() -> (table: Vec<StatusEntry<GetFailure>>) {
        let mut table: Vec<StatusEntry<GetFailure>> = Vec::new();
        table.push(StatusEntry { status: 200, outcome: Outcome::Success });
        table.push(StatusEntry { status: 400, outcome: Outcome::Failure(GetFailure::InvalidInput) });
        table
    }

    /// Snapshots are served by the market data host.
    fn base_url() -> (url: Option<String>)
        ensures
            url matches Some(host) && host@ == DATA_BASE_URL@,
    {
        Some(DATA_BASE_URL.to_string())
    }

    /// The path is the same for every request.
    fn path(input: &GetReq) -> (path: String)
        ensures
            path@ == "/v2/stocks/snapshots"@,
    {
        "/v2/stocks/snapshots".to_string()
    }

    /// The query holds the symbols and, where the request names one,
    /// the feed.
    fn query(input: &GetReq) -> (r: Result<Option<String>, ConversionError>)
        ensures
            r matches Ok(Some(query)) && query@ == query_text(input@),
    {
        let mut pairs: Vec<(String, String)> = Vec::new();
        pairs.push(("symbols".to_string(), string_slice_to_str(input.symbols.as_slice())));
        match input.feed {
            Some(feed) => pairs.push(("feed".to_string(), feed.as_str().to_string())),
            None => {},
        }
        assert(pairs.deep_view() == query_pairs(input@));
        match crate::urlencoded::to_string(&pairs) {
            Ok(query) => Ok(Some(query)),
            Err(e) => Err(ConversionError::UrlEncode(e)),
        }
    }

    /// No symbol occurs twice in the output.
    fn parse(body: &[u8]) -> (r: Result<Vec<(String, Snapshot)>, ConversionError>)
        ensures
            r matches Ok(output) ==> distinct_keys(output.deep_view()),
    {
        match Json::from_slice(body) {
            Ok(json) => match Snapshot::list_from_json(&json) {
                Ok(output) => {
                    proof {
                        lemma_entries_keys(json@->Object_0);
                    }
                    Ok(output)
                },
                Err(e) => Err(ConversionError::Shape(e)),
            },
            Err(e) => Err(e),
        }
    }

    fn parse_err(body: &[u8]) -> (r: Result<ApiError, Vec<u8>>) {
        ApiError::from_slice(body)
    }
}

/// The status table of [`Get`], spelled out: 200 is a success, 400 is
/// invalid input, and every other status code is unexpected.
pub proof fn lemma_get_statuses(status: u16)
    ensures
        lookup(Get::statuses(), status) == if status == 200 {
            Outcome::Success
        } else if status == 400 {
            Outcome::Failure(GetFailure::InvalidInput)
        } else {
            Outcome::<GetFailure>::Unexpected
        },
{
    let table = Get::statuses();
    if status == 200 {
        lemma_lookup_listed(table, 0);
    } else if status == 400 {
        lemma_lookup_listed(table, 1);
    } else {
        lemma_lookup_unlisted(table, status);
    }
}

/// The query of a request that names a feed is made of `symbols=`,
/// the escaped list of symbols, and `&feed=` with the token of the
/// feed; so `feed=` and the token stand in it.
pub proof fn lemma_query_names_feed(req: GetReqView)
    requires
        req.feed is Some,
    ensures
        query_text(req) == "symbols="@ + escaped(encode_utf8(joined(req.symbols, ","@)))
            + "&feed="@ + req.feed->0.token(),
        occurs_in("feed="@ + req.feed->0.token(), query_text(req)),
{
    let token = req.feed->0.token();
    let wanted = "feed="@ + token;
    let value = escaped(encode_utf8(joined(req.symbols, ","@)));
    let pairs = query_pairs(req);
    let text = query_text(req);
    reveal_strlit("symbols");
    reveal_strlit("symbols=");
    reveal_strlit("feed");
    reveal_strlit("feed=");
    reveal_strlit("&feed=");
    reveal_strlit("iex");
    reveal_strlit("sip");
    assert(is_plain("symbols"@));
    assert(is_plain("feed"@));
    assert(is_plain(token));
    lemma_plain_text("symbols"@);
    lemma_plain_text("feed"@);
    lemma_plain_text(token);
    assert(pairs.drop_last() == seq![("symbols"@, joined(req.symbols, ","@))]);
    assert(pair_text(pairs.last()) == "feed"@ + seq!['='] + token);
    assert("feed"@ + seq!['='] == "feed="@);
    assert("symbols"@ + seq!['='] == "symbols="@);
    assert(seq!['&'] + "feed="@ == "&feed="@);
    assert(form_text(pairs.drop_last()) == "symbols="@ + value);
    assert(text == "symbols="@ + value + seq!['&'] + wanted);
    assert(text == "symbols="@ + value + "&feed="@ + token);
    let start = text.len() - wanted.len();
    assert(text.subrange(start, start + wanted.len()) == wanted);
}

/// The query of a request that names no feed is made of `symbols=`
/// and the escaped list of symbols; `feed=` stands nowhere in it.
pub proof fn lemma_query_omits_feed(req: GetReqView)
    requires
        req.feed is None,
    ensures
        query_text(req) == "symbols="@ + escaped(encode_utf8(joined(req.symbols, ","@))),
        !occurs_in("feed="@, query_text(req)),
{
    let text = query_text(req);
    let value = escaped(encode_utf8(joined(req.symbols, ","@)));
    reveal_strlit("symbols");
    reveal_strlit("symbols=");
    reveal_strlit("feed=");
    assert(is_plain("symbols"@));
    lemma_plain_text("symbols"@);
    lemma_escaped_no_separator(encode_utf8(joined(req.symbols, ","@)));
    assert("symbols"@ + seq!['='] == "symbols="@);
    assert(text == "symbols="@ + value);
    assert forall|i: int| 0 <= i && i + 5 <= text.len() implies #[trigger] text.subrange(i, i + 5)
        != "feed="@ by {
        let part = text.subrange(i, i + 5);
        if part == "feed="@ {
            assert(part[4] == '=' && part[0] == 'f');
            assert(text[i + 4] == '=' && text[i] == 'f');
            if i + 4 >= 8 {
                assert(text[i + 4] == value[i + 4 - 8]);
            } else if i + 4 < 7 {
                assert(text[i + 4] == "symbols"@[i + 4]);
            } else {
                assert(text[i] == 'b');
            }
        }
    }
}

/// Where the first `n` members cannot be read, the whole list cannot,
/// for the same reason.
pub proof fn lemma_entries_fail(members: Seq<(Seq<char>, JsonValue)>, n: int)
    requires
        0 <= n <= members.len(),
        entries_of(members.take(n)) is Err,
    ensures
        entries_of(members) == entries_of(members.take(n)),
    decreases members.len(),
{
    if n < members.len() {
        assert(members.drop_last().take(n) == members.take(n));
        lemma_entries_fail(members.drop_last(), n);
    } else {
        assert(members.take(n) == members);
    }
}

/// What is read from an object has one entry for each of its members,
/// under the member's key and in the member's place, and holds no key
/// twice where the object holds none twice.
pub proof fn lemma_entries_keys(members: Seq<(Seq<char>, JsonValue)>)
    requires
        entries_of(members) is Ok,
    ensures
        entries_of(members)->Ok_0.len() == members.len(),
        forall|i: int|
            0 <= i < members.len() ==> (#[trigger] entries_of(members)->Ok_0[i]).0 == members[i].0
                && snapshot_of(members[i].1) == Ok::<_, ShapeError>(
                entries_of(members)->Ok_0[i].1,
            ),
        distinct_keys(members) ==> distinct_keys(entries_of(members)->Ok_0),
    decreases members.len(),
{
    if members.len() > 0 {
        lemma_entries_keys(members.drop_last());
    }
}

/// A snapshot is read back unchanged from the document that describes
/// it, whichever of its parts are there.
pub proof fn lemma_snapshot_round_trip(snapshot: SnapshotView)
    ensures
        snapshot_of(snapshot_json(snapshot)) == Ok::<_, ShapeError>(snapshot),
{
    reveal_strlit("dailyBar");
    reveal_strlit("latestQuote");
    reveal_strlit("latestTrade");
    reveal_strlit("minuteBar");
    reveal_strlit("prevDailyBar");
    assert("dailyBar"@[0] == 'd' && "latestQuote"@[0] == 'l' && "latestQuote"@[6] == 'Q'
        && "latestTrade"@[0] == 'l' && "latestTrade"@[6] == 'T' && "minuteBar"@[0] == 'm'
        && "prevDailyBar"@[0] == 'p');
    let members = snapshot_json(snapshot)->Object_0;
    crate::json::lemma_member_found(members, "dailyBar"@, 0);
    crate::json::lemma_member_found(members, "latestQuote"@, 1);
    crate::json::lemma_member_found(members, "latestTrade"@, 2);
    crate::json::lemma_member_found(members, "minuteBar"@, 3);
    crate::json::lemma_member_found(members, "prevDailyBar"@, 4);
    if let Some(bar) = snapshot.daily_bar {
        crate::data::v2::bars::lemma_bar_round_trip(bar);
    }
    if let Some(quote) = snapshot.latest_quote {
        crate::data::v2::quotes::lemma_quote_round_trip(quote);
    }
    if let Some(trade) = snapshot.latest_trade {
        crate::data::v2::trades::lemma_trade_round_trip(trade);
    }
    if let Some(bar) = snapshot.minute_bar {
        crate::data::v2::bars::lemma_bar_round_trip(bar);
    }
    if let Some(bar) = snapshot.prev_daily_bar {
        crate::data::v2::bars::lemma_bar_round_trip(bar);
    }
}

} // verus!
