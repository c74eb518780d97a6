use osrs_wiki_prices::endpoints::prices::five_minutes::{
    prices_five_minutes, prices_five_minutes_url, prices_five_minutes_with_timestamp_url,
    PricesFiveMinutesError,
};
use osrs_wiki_prices::endpoints::prices::one_hour::{
    prices_one_hour, prices_one_hour_url, prices_one_hour_with_timestamp_url, PricesOneHourError,
};
use osrs_wiki_prices::endpoints::prices::{
    prices_response, PricesResponse, PricesResponseError, PricesResponseSuccess,
};
use osrs_wiki_prices::decode::DecodeError;
use serde_json::Value;

const SUCCESS: &str = r#"{"data":{"1":{"avgHighPrice":171,"highPriceVolume":33644,"avgLowPrice":169,"lowPriceVolume":13925}},"timestamp":1697059200}"#;

fn value(json: &str) -> Value {
    serde_json::from_str(json).unwrap()
}

fn time(secs: i64) -> chrono::NaiveDateTime {
    chrono::DateTime::from_timestamp(secs, 0).unwrap().naive_utc()
}

#[test]
fn parse_test_success() {
    let json = r#"{"data":{"1":{"avgHighPrice":171,"highPriceVolume":33644,"avgLowPrice":169,"lowPriceVolume":13925}},"timestamp":1697059200}"#;
    let result: PricesResponseSuccess = PricesResponseSuccess::from_value(&value(json)).unwrap();
    assert_eq!(result.data.len(), 1);
}

#[test]
fn parse_test_untagged() {
    let json = r#"{"data":{"1":{"avgHighPrice":171,"highPriceVolume":33644,"avgLowPrice":169,"lowPriceVolume":13925}},"timestamp":1697059200}"#;
    let result: PricesResponse = prices_response(json.as_bytes()).unwrap();
    match result {
        PricesResponse::Success(success) => {
            assert_eq!(success.data.len(), 1);
            assert_eq!(success.timestamp.and_utc().timestamp(), 1697059200);
        }
        _ => panic!("Expected a success response"),
    }
}

#[test]
fn parse_test_error() {
    let json = r#"{"error":"Invalid request"}"#;
    let result: PricesResponse = prices_response(json.as_bytes()).unwrap();
    match result {
        PricesResponse::Error(error) => {
            assert_eq!(error.error, "Invalid request");
        }
        _ => panic!("Expected an error response"),
    }
}

#[test]
fn five_minutes_success_holds_the_one_item() {
    let prices = prices_five_minutes(SUCCESS.as_bytes()).unwrap();
    assert_eq!(prices.data.len(), 1);
    let item = prices.data.get(&1).unwrap();
    assert_eq!(item.avg_high_price, Some(171));
    assert_eq!(item.avg_low_price, Some(169));
    assert_eq!(item.high_price_volume, 33644);
    assert_eq!(item.low_price_volume, 13925);
    assert_eq!(prices.timestamp, time(1697059200));
    assert_eq!(prices.timestamp.and_utc().timestamp(), 1697059200);
}

#[test]
fn one_hour_success_holds_the_one_item() {
    let prices = prices_one_hour(SUCCESS.as_bytes()).unwrap();
    assert_eq!(prices.data.len(), 1);
    assert_eq!(prices.data.get(&1).unwrap().avg_high_price, Some(171));
    assert_eq!(prices.timestamp.and_utc().timestamp(), 1697059200);
}

#[test]
fn five_minutes_refusal_carries_the_message() {
    match prices_five_minutes(br#"{"error":"Invalid request"}"#) {
        Err(PricesFiveMinutesError::Error(message)) => assert_eq!(message, "Invalid request"),
        other => panic!("expected the service's refusal, got {:?}", other),
    }
}

#[test]
fn one_hour_refusal_carries_the_message() {
    match prices_one_hour(br#"{"error":"Invalid request"}"#) {
        Err(PricesOneHourError::Error(message)) => assert_eq!(message, "Invalid request"),
        other => panic!("expected the service's refusal, got {:?}", other),
    }
}

#[test]
fn body_that_is_no_json_is_a_syntax_error() {
    assert!(matches!(
        prices_five_minutes(b"{\"data\":"),
        Err(PricesFiveMinutesError::Decode(DecodeError::Syntax))
    ));
    assert!(matches!(
        prices_one_hour(b""),
        Err(PricesOneHourError::Decode(DecodeError::Syntax))
    ));
    assert!(matches!(prices_response(b"nul"), Err(DecodeError::Syntax)));
}

#[test]
fn body_of_neither_shape_is_a_shape_error() {
    for body in [
        "{}",
        "null",
        "[]",
        r#"{"error":5}"#,
        r#"{"data":{},"stamp":1}"#,
        r#"["Invalid request"]"#,
    ] {
        assert!(
            matches!(
                prices_five_minutes(body.as_bytes()),
                Err(PricesFiveMinutesError::Decode(DecodeError::Shape))
            ),
            "{}",
            body
        );
        assert!(
            matches!(
                prices_one_hour(body.as_bytes()),
                Err(PricesOneHourError::Decode(DecodeError::Shape))
            ),
            "{}",
            body
        );
    }
}

#[test]
fn success_is_tried_before_refusal() {
    let both = r#"{"error":"no","data":{},"timestamp":0}"#;
    assert!(matches!(
        prices_response(both.as_bytes()),
        Ok(PricesResponse::Success(_))
    ));
    let broken_success = r#"{"error":"no","data":{"x":{}},"timestamp":0}"#;
    match prices_response(broken_success.as_bytes()) {
        Ok(PricesResponse::Error(error)) => assert_eq!(error.error, "no"),
        other => panic!("expected a refusal, got {:?}", other),
    }
}

#[test]
fn unknown_fields_are_passed_over() {
    let json = r#"{"data":{"2":{"highPriceVolume":1,"lowPriceVolume":2,"more":true}},"timestamp":300,"note":"x"}"#;
    let prices = prices_five_minutes(json.as_bytes()).unwrap();
    let item = prices.data.get(&2).unwrap();
    assert_eq!(item.avg_high_price, None);
    assert_eq!(item.avg_low_price, None);
    assert_eq!(item.high_price_volume, 1);
    assert_eq!(item.low_price_volume, 2);
}

#[test]
fn price_item_wants_its_volumes() {
    let missing = r#"{"data":{"2":{"avgHighPrice":1,"lowPriceVolume":2}},"timestamp":300}"#;
    assert!(PricesResponseSuccess::from_value(&value(missing)).is_none());
    let null = r#"{"data":{"2":{"highPriceVolume":null,"lowPriceVolume":2}},"timestamp":300}"#;
    assert!(PricesResponseSuccess::from_value(&value(null)).is_none());
    let too_large = r#"{"data":{"2":{"highPriceVolume":4294967296,"lowPriceVolume":2}},"timestamp":300}"#;
    assert!(PricesResponseSuccess::from_value(&value(too_large)).is_none());
    let largest = r#"{"data":{"2":{"highPriceVolume":4294967295,"lowPriceVolume":2}},"timestamp":300}"#;
    let prices = PricesResponseSuccess::from_value(&value(largest)).unwrap();
    assert_eq!(prices.data.get(&2).unwrap().high_price_volume, u32::MAX);
}

#[test]
fn optional_price_is_absent_when_null() {
    let json = r#"{"data":{"2":{"avgHighPrice":null,"avgLowPrice":7,"highPriceVolume":0,"lowPriceVolume":2}},"timestamp":300}"#;
    let prices = PricesResponseSuccess::from_value(&value(json)).unwrap();
    let item = prices.data.get(&2).unwrap();
    assert_eq!(item.avg_high_price, None);
    assert_eq!(item.avg_low_price, Some(7));
    let wrong = r#"{"data":{"2":{"avgHighPrice":"7","highPriceVolume":0,"lowPriceVolume":2}},"timestamp":300}"#;
    assert!(PricesResponseSuccess::from_value(&value(wrong)).is_none());
    let negative = r#"{"data":{"2":{"avgHighPrice":-7,"highPriceVolume":0,"lowPriceVolume":2}},"timestamp":300}"#;
    assert!(PricesResponseSuccess::from_value(&value(negative)).is_none());
    let fraction = r#"{"data":{"2":{"avgHighPrice":7.5,"highPriceVolume":0,"lowPriceVolume":2}},"timestamp":300}"#;
    assert!(PricesResponseSuccess::from_value(&value(fraction)).is_none());
}

#[test]
fn keys_have_to_write_item_numbers() {
    let word = r#"{"data":{"sword":{"highPriceVolume":0,"lowPriceVolume":2}},"timestamp":300}"#;
    assert!(PricesResponseSuccess::from_value(&value(word)).is_none());
    let too_large = r#"{"data":{"4294967296":{"highPriceVolume":0,"lowPriceVolume":2}},"timestamp":300}"#;
    assert!(PricesResponseSuccess::from_value(&value(too_large)).is_none());
    let signed = r#"{"data":{"+12":{"highPriceVolume":0,"lowPriceVolume":2}},"timestamp":300}"#;
    let prices = PricesResponseSuccess::from_value(&value(signed)).unwrap();
    assert_eq!(prices.data.get(&12).unwrap().low_price_volume, 2);
}

#[test]
fn later_key_of_a_number_stays() {
    let json = r#"{"data":{"7":{"highPriceVolume":1,"lowPriceVolume":1},"07":{"highPriceVolume":2,"lowPriceVolume":2}},"timestamp":300}"#;
    let prices = PricesResponseSuccess::from_value(&value(json)).unwrap();
    assert_eq!(prices.data.len(), 1);
    assert_eq!(prices.data.get(&7).unwrap().high_price_volume, 1);
}

#[test]
fn timestamp_has_to_be_a_time() {
    let text = r#"{"data":{},"timestamp":"1697059200"}"#;
    assert!(PricesResponseSuccess::from_value(&value(text)).is_none());
    let fraction = r#"{"data":{},"timestamp":1.5}"#;
    assert!(PricesResponseSuccess::from_value(&value(fraction)).is_none());
    let beyond = r#"{"data":{},"timestamp":9223372036854775807}"#;
    assert!(PricesResponseSuccess::from_value(&value(beyond)).is_none());
    let unsigned = r#"{"data":{},"timestamp":18446744073709551615}"#;
    assert!(PricesResponseSuccess::from_value(&value(unsigned)).is_none());
    let before = r#"{"data":{},"timestamp":-86400}"#;
    let prices = PricesResponseSuccess::from_value(&value(before)).unwrap();
    assert_eq!(prices.timestamp.and_utc().timestamp(), -86400);
    assert!(prices.data.is_empty());
}

#[test]
fn refusal_is_read_from_its_message() {
    let error = PricesResponseError::from_value(&value(r#"{"error":"Invalid request"}"#)).unwrap();
    assert_eq!(error.error, "Invalid request");
    assert!(PricesResponseError::from_value(&value(r#"{"error":null}"#)).is_none());
    assert!(PricesResponseError::from_value(&value(r#"{"message":"x"}"#)).is_none());
    assert!(PricesResponseError::from_value(&value(r#""Invalid request""#)).is_none());
}

#[test]
fn prices_urls() {
    let base = "https://prices.runescape.wiki/api/v1/osrs";
    assert_eq!(
        prices_five_minutes_url(base),
        "https://prices.runescape.wiki/api/v1/osrs/5m"
    );
    assert_eq!(
        prices_one_hour_url(base),
        "https://prices.runescape.wiki/api/v1/osrs/1h"
    );
    assert_eq!(
        prices_five_minutes_with_timestamp_url(base, &time(1697059200)),
        "https://prices.runescape.wiki/api/v1/osrs/5m?timestamp=1697059200"
    );
    assert_eq!(
        prices_one_hour_with_timestamp_url(base, &time(1697058000)),
        "https://prices.runescape.wiki/api/v1/osrs/1h?timestamp=1697058000"
    );
}

#[test]
fn timestamp_is_written_as_given() {
    assert_eq!(
        prices_five_minutes_with_timestamp_url("b", &time(301)),
        "b/5m?timestamp=301"
    );
    assert_eq!(
        prices_five_minutes_with_timestamp_url("b", &time(0)),
        "b/5m?timestamp=0"
    );
    assert_eq!(
        prices_one_hour_with_timestamp_url("b", &time(-3600)),
        "b/1h?timestamp=-3600"
    );
}
