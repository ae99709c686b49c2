use apca::data::v2::bars::Bar;
use apca::data::v2::feed::Feed;
use apca::data::v2::quotes::Quote;
use apca::data::v2::snapshots::Get;
use apca::data::v2::snapshots::GetError;
use apca::data::v2::snapshots::GetFailure;
use apca::data::v2::snapshots::GetReq;
use apca::data::v2::snapshots::GetReqInit;
use apca::data::v2::snapshots::Snapshot;
use apca::data::v2::trades::Trade;
use apca::data::DATA_BASE_URL;
use apca::endpoint::ApiError;
use apca::endpoint::Endpoint;
use apca::endpoint::EndpointError;
use apca::endpoint::Outcome;
use apca::error::ConversionError;
use apca::error::ShapeError;
use apca::json::Json;
use apca::json::Number;

fn strings(parts: &[&str]) -> Vec<String> {
    parts.iter().map(|part| part.to_string()).collect()
}

fn price(value: f64) -> Number {
    Number::Float(value.to_bits())
}

fn empty_snapshot() -> Snapshot {
    Snapshot {
        daily_bar: None,
        latest_quote: None,
        latest_trade: None,
        minute_bar: None,
        prev_daily_bar: None,
    }
}

fn bar(time: &str, open: f64, high: f64, low: f64, close: f64, volume: u64) -> Bar {
    Bar {
        time: time.to_string(),
        open: price(open),
        high: price(high),
        low: price(low),
        close: price(close),
        volume,
    }
}

fn full_snapshot() -> Snapshot {
    Snapshot {
        daily_bar: Some(bar("2021-05-11T04:00:00Z", 123.5, 126.27, 122.77, 125.91, 125863164)),
        latest_quote: Some(Quote {
            time: "2021-05-11T22:05:02.307304704Z".to_string(),
            ask_price: price(125.68),
            ask_size: 12,
            bid_price: price(125.6),
            bid_size: 4,
        }),
        latest_trade: Some(Trade {
            timestamp: "2021-05-11T22:05:02.307304704Z".to_string(),
            price: price(125.61),
            size: 694,
        }),
        minute_bar: Some(bar("2021-05-11T22:02:00Z", 125.66, 125.66, 125.66, 125.66, 396)),
        prev_daily_bar: Some(Bar {
            time: "2021-05-10T04:00:00Z".to_string(),
            open: Number::PosInt(129),
            high: price(129.54),
            low: Number::PosInt(126),
            close: price(126.85),
            volume: 79569305,
        }),
    }
}

const FULL_BODY: &str = r#"{
  "AAPL": {
    "latestTrade": {"t": "2021-05-11T22:05:02.307304704Z", "x": "P", "p": 125.61, "s": 694, "c": ["@", "T"], "i": 4405, "z": "C"},
    "latestQuote": {"t": "2021-05-11T22:05:02.307304704Z", "ax": "P", "ap": 125.68, "as": 12, "bx": "P", "bp": 125.6, "bs": 4, "c": ["R"]},
    "minuteBar": {"t": "2021-05-11T22:02:00Z", "o": 125.66, "h": 125.66, "l": 125.66, "c": 125.66, "v": 396},
    "dailyBar": {"t": "2021-05-11T04:00:00Z", "o": 123.5, "h": 126.27, "l": 122.77, "c": 125.91, "v": 125863164},
    "prevDailyBar": {"t": "2021-05-10T04:00:00Z", "o": 129, "h": 129.54, "l": 126, "c": 126.85, "v": 79569305}
  }
}"#;

fn to_value(json: &Json) -> serde_json::Value {
    match json {
        Json::Null => serde_json::Value::Null,
        Json::Bool(b) => serde_json::Value::Bool(*b),
        Json::Number(Number::PosInt(n)) => serde_json::Value::from(*n),
        Json::Number(Number::NegInt(n)) => serde_json::Value::from(*n),
        Json::Number(Number::Float(bits)) => serde_json::Value::from(f64::from_bits(*bits)),
        Json::String(s) => serde_json::Value::from(s.clone()),
        Json::Array(items) => serde_json::Value::Array(items.iter().map(to_value).collect()),
        Json::Object(members) => serde_json::Value::Object(
            members
                .iter()
                .map(|(key, value)| (key.clone(), to_value(value)))
                .collect(),
        ),
    }
}

#[test]
fn init_keeps_symbols_in_order_and_names_no_feed() {
    let req = GetReqInit::default().init(strings(&["AAPL", "MSFT"]));
    assert_eq!(req.feed, None);
    assert_eq!(req.symbols, strings(&["AAPL", "MSFT"]));
    assert_eq!(
        req,
        GetReq {
            symbols: strings(&["AAPL", "MSFT"]),
            feed: None,
        }
    );
}

#[test]
fn init_hands_the_feed_on() {
    let init = GetReqInit {
        feed: Some(Feed::SIP),
        ..Default::default()
    };
    let req = init.init(strings(&["SPY"]));
    assert_eq!(req.feed, Some(Feed::SIP));
    assert_eq!(req.symbols, strings(&["SPY"]));
}

#[test]
fn init_does_not_reorder_or_merge_symbols() {
    let req = GetReqInit::default().init(strings(&["MSFT", "AAPL", "MSFT"]));
    assert_eq!(req.symbols, strings(&["MSFT", "AAPL", "MSFT"]));
}

#[test]
fn default_init_names_no_feed() {
    assert_eq!(GetReqInit::default(), GetReqInit { feed: None });
}

#[test]
fn base_url_is_the_data_host() {
    assert_eq!(Get::base_url(), Some(DATA_BASE_URL.to_string()));
    assert_eq!(DATA_BASE_URL, "https://data.alpaca.markets");
}

#[test]
fn path_is_fixed() {
    let one = GetReqInit::default().init(strings(&["AAPL"]));
    let other = GetReqInit {
        feed: Some(Feed::IEX),
    }
    .init(strings(&["MSFT", "SPY"]));
    assert_eq!(Get::path(&one), "/v2/stocks/snapshots");
    assert_eq!(Get::path(&other), "/v2/stocks/snapshots");
}

#[test]
fn query_with_feed_names_it() {
    let req = GetReqInit {
        feed: Some(Feed::IEX),
    }
    .init(strings(&["AAPL", "MSFT"]));
    let query = Get::query(&req).unwrap().unwrap();
    assert_eq!(query, "symbols=AAPL%2CMSFT&feed=iex");
    assert!(query.contains("feed=iex"));
}

#[test]
fn query_with_sip_feed() {
    let req = GetReqInit {
        feed: Some(Feed::SIP),
    }
    .init(strings(&["SPY"]));
    assert_eq!(
        Get::query(&req).unwrap(),
        Some("symbols=SPY&feed=sip".to_string())
    );
}

#[test]
fn query_without_feed_omits_the_key() {
    let req = GetReqInit::default().init(strings(&["AAPL", "MSFT"]));
    let query = Get::query(&req).unwrap().unwrap();
    assert_eq!(query, "symbols=AAPL%2CMSFT");
    assert!(!query.contains("feed"));
}

#[test]
fn query_escapes_what_is_not_plain() {
    let req = GetReqInit::default().init(strings(&["BRK B", "a&b=c", "d\u{e9}j\u{e0}", "x*-._~"]));
    assert_eq!(
        Get::query(&req).unwrap(),
        Some("symbols=BRK+B%2Ca%26b%3Dc%2Cd%C3%A9j%C3%A0%2Cx*-._%7E".to_string())
    );
}

#[test]
fn query_of_a_symbol_named_like_the_feed_key() {
    let req = GetReqInit::default().init(strings(&["feed=iex"]));
    let query = Get::query(&req).unwrap().unwrap();
    assert_eq!(query, "symbols=feed%3Diex");
    assert!(!query.contains("feed="));
}

#[test]
fn query_without_symbols() {
    let req = GetReqInit::default().init(Vec::new());
    assert_eq!(Get::query(&req).unwrap(), Some("symbols=".to_string()));
    let req = GetReqInit {
        feed: Some(Feed::IEX),
    }
    .init(Vec::new());
    assert_eq!(
        Get::query(&req).unwrap(),
        Some("symbols=&feed=iex".to_string())
    );
}

#[test]
fn parse_snapshot_with_all_parts_null() {
    let body = br#"{"AAPL": {"dailyBar": null, "latestQuote": null, "latestTrade": null, "minuteBar": null, "prevDailyBar": null}}"#;
    let output = Get::parse(body).unwrap();
    assert_eq!(output, vec![("AAPL".to_string(), empty_snapshot())]);
}

#[test]
fn parse_snapshot_with_all_parts_missing() {
    let output = Get::parse(br#"{"AAPL": {}}"#).unwrap();
    assert_eq!(output, vec![("AAPL".to_string(), empty_snapshot())]);
}

#[test]
fn parse_no_snapshots() {
    assert_eq!(Get::parse(b"{}").unwrap(), vec![]);
}

#[test]
fn parse_snapshot_with_all_parts_there() {
    let output = Get::parse(FULL_BODY.as_bytes()).unwrap();
    assert_eq!(output, vec![("AAPL".to_string(), full_snapshot())]);
}

#[test]
fn parse_snapshot_with_some_parts_there() {
    let body = br#"{"SPY": {"latestTrade": {"t": "2021-05-11T22:05:02Z", "p": 414, "s": 100}, "dailyBar": null}}"#;
    let output = Get::parse(body).unwrap();
    let expected = Snapshot {
        latest_trade: Some(Trade {
            timestamp: "2021-05-11T22:05:02Z".to_string(),
            price: Number::PosInt(414),
            size: 100,
        }),
        ..empty_snapshot()
    };
    assert_eq!(output, vec![("SPY".to_string(), expected)]);
}

#[test]
fn parse_several_symbols_each_once() {
    let body = br#"{"MSFT": {}, "AAPL": {"minuteBar": null}, "SPY": {}, "AAPL": {}}"#;
    let output = Get::parse(body).unwrap();
    let mut symbols: Vec<&str> = output.iter().map(|(symbol, _)| symbol.as_str()).collect();
    symbols.sort();
    assert_eq!(symbols, vec!["AAPL", "MSFT", "SPY"]);
    for (_, snapshot) in &output {
        assert_eq!(*snapshot, empty_snapshot());
    }
}

#[test]
fn parse_malformed_body_is_a_conversion_error() {
    for body in [
        &b""[..],
        &b"not json"[..],
        &b"{\"AAPL\": "[..],
        &b"<html></html>"[..],
        &b"\xff\xff"[..],
    ] {
        assert!(matches!(Get::parse(body), Err(ConversionError::Json(_))));
    }
}

#[test]
fn parse_document_of_another_shape_is_a_conversion_error() {
    let cases: Vec<(&str, ShapeError)> = vec![
        ("[]", ShapeError::ExpectedObject),
        ("null", ShapeError::ExpectedObject),
        ("\"AAPL\"", ShapeError::ExpectedObject),
        (r#"{"AAPL": 5}"#, ShapeError::ExpectedObject),
        (r#"{"AAPL": null}"#, ShapeError::ExpectedObject),
        (r#"{"AAPL": {"dailyBar": 5}}"#, ShapeError::ExpectedObject),
        (r#"{"AAPL": {"latestQuote": []}}"#, ShapeError::ExpectedObject),
        (r#"{"AAPL": {"dailyBar": {}}}"#, ShapeError::Missing),
        (
            r#"{"AAPL": {"dailyBar": {"t": 5, "o": 1, "h": 1, "l": 1, "c": 1, "v": 1}}}"#,
            ShapeError::ExpectedString,
        ),
        (
            r#"{"AAPL": {"dailyBar": {"t": "x", "o": "1", "h": 1, "l": 1, "c": 1, "v": 1}}}"#,
            ShapeError::ExpectedNumber,
        ),
        (
            r#"{"AAPL": {"dailyBar": {"t": "x", "o": 1, "h": 1, "l": 1, "c": 1, "v": 1.5}}}"#,
            ShapeError::ExpectedUnsigned,
        ),
        (
            r#"{"AAPL": {"dailyBar": {"t": "x", "o": 1, "h": 1, "l": 1, "c": 1, "v": -1}}}"#,
            ShapeError::ExpectedUnsigned,
        ),
        (
            r#"{"AAPL": {"dailyBar": {"t": "x", "o": 1, "h": 1, "l": 1, "c": 1}}}"#,
            ShapeError::Missing,
        ),
        (
            r#"{"AAPL": {"latestTrade": {"t": "x", "p": null, "s": 1}}}"#,
            ShapeError::ExpectedNumber,
        ),
        (
            r#"{"AAPL": {"latestQuote": {"t": "x", "ap": 1, "as": 1, "bp": 1}}}"#,
            ShapeError::Missing,
        ),
        (
            r#"{"AAPL": {}, "MSFT": {"minuteBar": true}}"#,
            ShapeError::ExpectedObject,
        ),
    ];
    for (body, expected) in cases {
        match Get::parse(body.as_bytes()) {
            Err(ConversionError::Shape(e)) => assert_eq!(e, expected, "{}", body),
            other => panic!("{}: {:?}", body, other),
        }
    }
}

#[test]
fn parse_reports_the_first_part_that_is_wrong() {
    let body = br#"{"AAPL": {"prevDailyBar": {}, "dailyBar": 1}}"#;
    assert!(matches!(
        Get::parse(body),
        Err(ConversionError::Shape(ShapeError::ExpectedObject))
    ));
    let body = br#"{"AAPL": {"latestTrade": {"t": 1}, "latestQuote": {}}}"#;
    assert!(matches!(
        Get::parse(body),
        Err(ConversionError::Shape(ShapeError::Missing))
    ));
}

#[test]
fn parse_err_decodes_the_structured_shape() {
    let body = br#"{"code": 40010001, "message": "invalid symbol"}"#;
    assert_eq!(
        Get::parse_err(body),
        Ok(ApiError {
            code: 40010001,
            message: "invalid symbol".to_string(),
        })
    );
}

#[test]
fn parse_err_hands_back_raw_bytes() {
    for body in [
        &b"upstream timed out"[..],
        &b""[..],
        &br#"{"error": "x"}"#[..],
        &b"\x01\x02\xff"[..],
    ] {
        assert_eq!(Get::parse_err(body), Err(body.to_vec()));
    }
}

#[test]
fn status_table_lists_200_and_400() {
    let table = Get::status_table();
    assert_eq!(table.len(), 2);
    assert_eq!(table[0].status, 200);
    assert_eq!(table[0].outcome, Outcome::Success);
    assert_eq!(table[1].status, 400);
    assert_eq!(table[1].outcome, Outcome::Failure(GetFailure::InvalidInput));
}

#[test]
fn evaluate_success() {
    let result: Result<Vec<(String, Snapshot)>, GetError> =
        Get::evaluate(200, FULL_BODY.as_bytes());
    assert_eq!(result.unwrap(), vec![("AAPL".to_string(), full_snapshot())]);
}

#[test]
fn evaluate_success_with_malformed_body() {
    assert!(matches!(
        Get::evaluate(200, b"not json"),
        Err(EndpointError::Conversion(ConversionError::Json(_)))
    ));
    assert!(matches!(
        Get::evaluate(200, b"[]"),
        Err(EndpointError::Conversion(ConversionError::Shape(
            ShapeError::ExpectedObject
        )))
    ));
}

#[test]
fn evaluate_invalid_input() {
    let body = br#"{"code": 40010001, "message": "invalid symbol"}"#;
    match Get::evaluate(400, body) {
        Err(EndpointError::Failure(GetFailure::InvalidInput, details)) => assert_eq!(
            details,
            Ok(ApiError {
                code: 40010001,
                message: "invalid symbol".to_string(),
            })
        ),
        other => panic!("{:?}", other),
    }
    match Get::evaluate(400, b"bad request") {
        Err(EndpointError::Failure(GetFailure::InvalidInput, details)) => {
            assert_eq!(details, Err(b"bad request".to_vec()))
        }
        other => panic!("{:?}", other),
    }
}

#[test]
fn evaluate_unexpected_status() {
    let body = br#"{"code": 42910000, "message": "rate limit exceeded"}"#;
    match Get::evaluate(429, body) {
        Err(EndpointError::UnexpectedStatus(status, details)) => {
            assert_eq!(status, 429);
            assert_eq!(
                details,
                Ok(ApiError {
                    code: 42910000,
                    message: "rate limit exceeded".to_string(),
                })
            );
        }
        other => panic!("{:?}", other),
    }
    match Get::evaluate(502, b"Bad Gateway") {
        Err(EndpointError::UnexpectedStatus(status, details)) => {
            assert_eq!(status, 502);
            assert_eq!(details, Err(b"Bad Gateway".to_vec()));
        }
        other => panic!("{:?}", other),
    }
}

#[test]
fn evaluate_puts_every_status_in_one_category() {
    let body = FULL_BODY.as_bytes();
    for status in 100u16..=599 {
        let result = Get::evaluate(status, body);
        let success = result.is_ok();
        let named = matches!(result, Err(EndpointError::Failure(_, _)));
        let unexpected = matches!(result, Err(EndpointError::UnexpectedStatus(s, _)) if s == status);
        assert_eq!(
            [success, named, unexpected].iter().filter(|b| **b).count(),
            1
        );
        assert_eq!(success, status == 200);
        assert_eq!(named, status == 400);
        assert_eq!(unexpected, status != 200 && status != 400);
    }
}

#[test]
fn snapshot_from_json() {
    let json = Json::from_slice(br#"{"minuteBar": {"t": "x", "o": 1, "h": 2.5, "l": -3, "c": 4, "v": 5}, "more": 1}"#).unwrap();
    let expected = Snapshot {
        minute_bar: Some(Bar {
            time: "x".to_string(),
            open: Number::PosInt(1),
            high: price(2.5),
            low: Number::NegInt(-3),
            close: Number::PosInt(4),
            volume: 5,
        }),
        ..empty_snapshot()
    };
    assert_eq!(Snapshot::from_json(&json), Ok(expected));
    assert_eq!(
        Snapshot::from_json(&Json::Array(vec![])),
        Err(ShapeError::ExpectedObject)
    );
}

#[test]
fn snapshot_to_json_writes_absent_parts_as_null() {
    let expected = Json::Object(vec![
        ("dailyBar".to_string(), Json::Null),
        ("latestQuote".to_string(), Json::Null),
        ("latestTrade".to_string(), Json::Null),
        ("minuteBar".to_string(), Json::Null),
        ("prevDailyBar".to_string(), Json::Null),
    ]);
    assert_eq!(empty_snapshot().to_json(), expected);
}

#[test]
fn bar_to_json() {
    let expected = Json::Object(vec![
        ("t".to_string(), Json::String("2021-05-11T04:00:00Z".to_string())),
        ("o".to_string(), Json::Number(price(1.5))),
        ("h".to_string(), Json::Number(price(2.5))),
        ("l".to_string(), Json::Number(price(0.5))),
        ("c".to_string(), Json::Number(price(2.0))),
        ("v".to_string(), Json::Number(Number::PosInt(9))),
    ]);
    assert_eq!(bar("2021-05-11T04:00:00Z", 1.5, 2.5, 0.5, 2.0, 9).to_json(), expected);
}

#[test]
fn quote_and_trade_to_json() {
    let quote = Quote {
        time: "a".to_string(),
        ask_price: price(1.25),
        ask_size: 2,
        bid_price: Number::PosInt(1),
        bid_size: 3,
    };
    assert_eq!(
        quote.to_json(),
        Json::Object(vec![
            ("t".to_string(), Json::String("a".to_string())),
            ("ap".to_string(), Json::Number(price(1.25))),
            ("as".to_string(), Json::Number(Number::PosInt(2))),
            ("bp".to_string(), Json::Number(Number::PosInt(1))),
            ("bs".to_string(), Json::Number(Number::PosInt(3))),
        ])
    );
    let trade = Trade {
        timestamp: "b".to_string(),
        price: price(7.75),
        size: 11,
    };
    assert_eq!(
        trade.to_json(),
        Json::Object(vec![
            ("t".to_string(), Json::String("b".to_string())),
            ("p".to_string(), Json::Number(price(7.75))),
            ("s".to_string(), Json::Number(Number::PosInt(11))),
        ])
    );
    assert_eq!(Quote::from_json(&quote.to_json()), Ok(quote));
    assert_eq!(Trade::from_json(&trade.to_json()), Ok(trade));
}

#[test]
fn snapshot_round_trip_through_a_document() {
    let snapshot = full_snapshot();
    assert_eq!(Snapshot::from_json(&snapshot.to_json()), Ok(snapshot));
    let snapshot = empty_snapshot();
    assert_eq!(Snapshot::from_json(&snapshot.to_json()), Ok(snapshot));
    let snapshot = Snapshot {
        latest_quote: None,
        minute_bar: None,
        ..full_snapshot()
    };
    assert_eq!(Snapshot::from_json(&snapshot.to_json()), Ok(snapshot));
}

#[test]
fn snapshot_round_trip_through_text() {
    let snapshot = full_snapshot();
    let document = Json::Object(vec![("AAPL".to_string(), snapshot.to_json())]);
    let body = serde_json::to_vec(&to_value(&document)).unwrap();
    let output = Get::parse(&body).unwrap();
    assert_eq!(output, vec![("AAPL".to_string(), snapshot)]);
}

#[test]
fn list_from_json_keeps_the_order_of_the_members() {
    let document = Json::Object(vec![
        ("MSFT".to_string(), empty_snapshot().to_json()),
        ("AAPL".to_string(), full_snapshot().to_json()),
    ]);
    assert_eq!(
        Snapshot::list_from_json(&document),
        Ok(vec![
            ("MSFT".to_string(), empty_snapshot()),
            ("AAPL".to_string(), full_snapshot()),
        ])
    );
    assert_eq!(
        Snapshot::list_from_json(&Json::Null),
        Err(ShapeError::ExpectedObject)
    );
}
