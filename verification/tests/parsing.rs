//! Tests for payload and topic parsing.

use paletten_cloud_hub::errors::ParseError;
use paletten_cloud_hub::ingest::Controller;
use paletten_cloud_hub::models::{Decimal, HeaterState, Measurement};
use paletten_cloud_hub::numbers::parse_decimal;

fn reading(temperature: i64, humidity: i64) -> Measurement {
    Measurement {
        temperature: Decimal { thousandths: temperature },
        humidity: Decimal { thousandths: humidity },
    }
}

#[test]
fn decimal_simple() {
    assert_eq!(parse_decimal("21.5").unwrap().thousandths, 21_500);
    assert_eq!(parse_decimal("19.0").unwrap().thousandths, 19_000);
    assert_eq!(parse_decimal("0").unwrap().thousandths, 0);
    assert_eq!(parse_decimal("42").unwrap().thousandths, 42_000);
}

#[test]
fn decimal_signs() {
    assert_eq!(parse_decimal("-3.25").unwrap().thousandths, -3_250);
    assert_eq!(parse_decimal("+2").unwrap().thousandths, 2_000);
    assert_eq!(parse_decimal("-0.5").unwrap().thousandths, -500);
}

#[test]
fn decimal_edge_shapes() {
    assert_eq!(parse_decimal(".5").unwrap().thousandths, 500);
    assert_eq!(parse_decimal("21.").unwrap().thousandths, 21_000);
    assert_eq!(parse_decimal("1.2345").unwrap().thousandths, 1_234);
    assert_eq!(parse_decimal("000021.5").unwrap().thousandths, 21_500);
}

#[test]
fn decimal_rejects_garbage() {
    assert_eq!(parse_decimal(""), Err(ParseError::InvalidNumber));
    assert_eq!(parse_decimal("a"), Err(ParseError::InvalidNumber));
    assert_eq!(parse_decimal("."), Err(ParseError::InvalidNumber));
    assert_eq!(parse_decimal("-"), Err(ParseError::InvalidNumber));
    assert_eq!(parse_decimal("1.2.3"), Err(ParseError::InvalidNumber));
    assert_eq!(parse_decimal("1,5"), Err(ParseError::InvalidNumber));
    assert_eq!(parse_decimal(" 21.5"), Err(ParseError::InvalidNumber));
    assert_eq!(parse_decimal("21.5 "), Err(ParseError::InvalidNumber));
    assert_eq!(parse_decimal("1234567890123456"), Err(ParseError::InvalidNumber));
}

#[test]
fn decimal_fifteen_integer_digits_fit() {
    assert_eq!(
        parse_decimal("123456789012345").unwrap().thousandths,
        123_456_789_012_345_000
    );
}

#[test]
fn heater_state_encodings() {
    assert_eq!(HeaterState::from_str("on"), Ok(HeaterState::On));
    assert_eq!(HeaterState::from_str("off"), Ok(HeaterState::Off));
    assert_eq!(HeaterState::from_str("ON"), Err(ParseError::InvalidHeaterState));
    assert_eq!(HeaterState::from_str(""), Err(ParseError::InvalidHeaterState));
    assert_eq!(HeaterState::On.as_str(), "on");
    assert_eq!(HeaterState::Off.as_str(), "off");
    assert_eq!(HeaterState::On.as_u8(), 1);
    assert_eq!(HeaterState::Off.as_u8(), 0);
}

#[test]
fn heater_topic_accepts_valid_id() {
    let c = Controller::new();
    let (id, state) = c
        .parse_heater_state_change_message("shellies/shelly1-C4402D/relay/0", "on")
        .unwrap();
    assert_eq!(id, "C4402D");
    assert_eq!(state, HeaterState::On);
}

#[test]
fn heater_topic_rejects_bad_shapes() {
    let c = Controller::new();
    let bad_topics = [
        "shellies/shelly1-c4402d/relay/0",
        "shellies/shelly1-C4402/relay/0",
        "shellies/shelly1-C4402DD/relay/0",
        "shellies/shelly1-C4402D/relay/1",
        "shellies/announce",
    ];
    for topic in bad_topics {
        assert_eq!(
            c.parse_heater_state_change_message(topic, "on"),
            Err(ParseError::UnknownHeater),
            "topic {topic:?} should be rejected"
        );
    }
    assert_eq!(
        c.parse_heater_state_change_message("shellies/shelly1-C4402D/relay/0", "ON"),
        Err(ParseError::InvalidHeaterState)
    );
}

#[test]
fn measurement_topic_places() {
    let c = Controller::new();
    let m = reading(5_000, 80_000);
    let (place, got) = c.parse_measurement("measurement/outside", Some(m)).unwrap();
    assert_eq!(place, "outside");
    assert_eq!(got, m);
    let (place, _) = c.parse_measurement("measurement/inside", Some(m)).unwrap();
    assert_eq!(place, "inside");
    assert_eq!(
        c.parse_measurement("measurement/attic", Some(m)),
        Err(ParseError::UnknownPlace)
    );
    // A payload that did not deserialize reaches the classifier as None.
    assert_eq!(
        c.parse_measurement("measurement/inside", None),
        Err(ParseError::InvalidMeasurement)
    );
}

#[test]
fn parse_error_descriptions() {
    assert_eq!(
        ParseError::InvalidNumber.describe(),
        "failed to parse payload as a decimal number"
    );
    assert_eq!(
        ParseError::UnknownPlace.describe(),
        "received measurement from unknown place"
    );
    assert_eq!(
        ParseError::InvalidMeasurement.describe(),
        "failed to parse measurement payload"
    );
    assert_eq!(
        ParseError::UnknownHeater.describe(),
        "received state from unknown heater"
    );
    assert_eq!(
        ParseError::InvalidHeaterState.describe(),
        "payload is not a valid heater state"
    );
}

#[test]
fn decimal_rounds_to_nearest_unit() {
    assert_eq!(Decimal { thousandths: 22_100 }.round(), 22);
    assert_eq!(Decimal { thousandths: 40_000 }.round(), 40);
    assert_eq!(Decimal { thousandths: 22_900 }.round(), 23);
    assert_eq!(Decimal { thousandths: 40_600 }.round(), 41);
    assert_eq!(Decimal { thousandths: 499 }.round(), 0);
    assert_eq!(Decimal { thousandths: -499 }.round(), 0);
    // Halves round away from zero.
    assert_eq!(Decimal { thousandths: 500 }.round(), 1);
    assert_eq!(Decimal { thousandths: -500 }.round(), -1);
    assert_eq!(Decimal { thousandths: -22_500 }.round(), -23);
}
