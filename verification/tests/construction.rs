use zoneddatetime::error::ErrorKind;
use zoneddatetime::value::{Float64, JsObject, JsValue, Symbol, Type};
use zoneddatetime::zoneddatetime::ZonedDateTime;

fn text(s: &str) -> JsValue {
    JsValue::String(s.to_string())
}

fn target() -> JsValue {
    JsValue::Boolean(true)
}

/// 2021-01-01T00:00:00Z.
const NEW_YEAR_2021: i128 = 1_609_459_200_000_000_000;

const LAST_INSTANT: i128 = 8_640_000_000_000_000_000_000;

fn construct(args: &[JsValue]) -> Result<JsValue, ErrorKind> {
    ZonedDateTime::constructor(&target(), args).map_err(|e| e.kind)
}

fn new_york() -> JsValue {
    construct(&[JsValue::BigInt(NEW_YEAR_2021), text("America/New_York")])
        .expect("a known zone and an instant in range")
}

#[test]
fn get_type_names_each_form() {
    assert_eq!(JsValue::Undefined.get_type(), Type::Undefined);
    assert_eq!(JsValue::Null.get_type(), Type::Null);
    assert_eq!(JsValue::Boolean(false).get_type(), Type::Boolean);
    assert_eq!(JsValue::Integer32(7).get_type(), Type::Number);
    assert_eq!(JsValue::Float64(Float64 { bits: 1.5f64.to_bits() }).get_type(), Type::Number);
    assert_eq!(text("x").get_type(), Type::String);
    assert_eq!(JsValue::Symbol(Symbol { id: 3 }).get_type(), Type::Symbol);
    assert_eq!(JsValue::BigInt(5).get_type(), Type::BigInt);
    assert_eq!(new_york().get_type(), Type::Object);
}

#[test]
fn constructor_keeps_the_exact_nanosecond_count() {
    let count = NEW_YEAR_2021 + 123_456_789;
    let value = construct(&[JsValue::BigInt(count), text("UTC")]).unwrap();
    assert_eq!(ZonedDateTime::get_epoch_nanosecond(&value).unwrap(), count);
    assert_eq!(ZonedDateTime::get_epoch_millisecond(&value).unwrap(), 1_609_459_200_123);
    assert_eq!(ZonedDateTime::get_calendar_id(&value).unwrap(), "iso8601");
    assert_eq!(ZonedDateTime::get_timezone_id(&value).unwrap(), "UTC");
}

#[test]
fn constructor_keeps_counts_that_no_double_can_hold() {
    // Two to the sixty-third plus one has no exact double.
    let count: i128 = 9_223_372_036_854_775_809;
    let value = construct(&[JsValue::BigInt(count), text("UTC")]).unwrap();
    assert_eq!(ZonedDateTime::get_epoch_nanosecond(&value).unwrap(), count);
    let value = construct(&[JsValue::BigInt(-count), text("UTC")]).unwrap();
    assert_eq!(ZonedDateTime::get_epoch_nanosecond(&value).unwrap(), -count);
}

#[test]
fn constructor_object_carries_the_value() {
    match new_york() {
        JsValue::Object(JsObject::ZonedDateTime(z)) => {
            assert_eq!(z.instant().epoch_nanoseconds(), NEW_YEAR_2021);
            assert_eq!(z.time_zone().identifier(), "America/New_York");
            assert_eq!(z.calendar().identifier(), "iso8601");
        }
        other => panic!("not a zoned date-time object: {:?}", other),
    }
}

#[test]
fn constructor_without_target_is_a_type_error() {
    let r = ZonedDateTime::constructor(&JsValue::Undefined, &[JsValue::BigInt(0), text("UTC")]);
    assert_eq!(r.unwrap_err().kind, ErrorKind::Type);
}

#[test]
fn constructor_target_error_comes_before_any_other() {
    let r = ZonedDateTime::constructor(&JsValue::Undefined, &[JsValue::BigInt(LAST_INSTANT + 1), text("Mars/Olympus")]);
    assert_eq!(r.unwrap_err().kind, ErrorKind::Type);
}

#[test]
fn constructor_needs_a_big_integer_count() {
    assert_eq!(construct(&[]).unwrap_err(), ErrorKind::Type);
    assert_eq!(construct(&[JsValue::Integer32(0), text("UTC")]).unwrap_err(), ErrorKind::Type);
    assert_eq!(construct(&[text("0"), text("UTC")]).unwrap_err(), ErrorKind::Type);
    assert_eq!(construct(&[JsValue::Undefined, text("UTC")]).unwrap_err(), ErrorKind::Type);
}

#[test]
fn constructor_needs_a_string_zone() {
    assert_eq!(construct(&[JsValue::BigInt(0)]).unwrap_err(), ErrorKind::Type);
    assert_eq!(construct(&[JsValue::BigInt(0), JsValue::Null]).unwrap_err(), ErrorKind::Type);
    assert_eq!(construct(&[JsValue::BigInt(0), JsValue::Integer32(5)]).unwrap_err(), ErrorKind::Type);
    assert_eq!(construct(&[JsValue::BigInt(0), new_york()]).unwrap_err(), ErrorKind::Type);
}

#[test]
fn constructor_unknown_zone_is_a_range_error() {
    assert_eq!(construct(&[JsValue::BigInt(0), text("Mars/Olympus")]).unwrap_err(), ErrorKind::Range);
    assert_eq!(construct(&[JsValue::BigInt(0), text("")]).unwrap_err(), ErrorKind::Range);
}

#[test]
fn constructor_zone_shape_is_checked_before_the_calendar() {
    let r = construct(&[JsValue::BigInt(0), JsValue::Null, text("martian")]);
    assert_eq!(r.unwrap_err(), ErrorKind::Type);
    let r = construct(&[JsValue::BigInt(0), text("Mars/Olympus"), JsValue::Null]);
    assert_eq!(r.unwrap_err(), ErrorKind::Range);
}

#[test]
fn constructor_calendar_must_be_a_string_when_present() {
    assert_eq!(construct(&[JsValue::BigInt(0), text("UTC"), JsValue::Integer32(1)]).unwrap_err(), ErrorKind::Type);
    assert_eq!(construct(&[JsValue::BigInt(0), text("UTC"), JsValue::Undefined]).unwrap_err(), ErrorKind::Type);
    assert_eq!(construct(&[JsValue::BigInt(0), text("UTC"), JsValue::Null]).unwrap_err(), ErrorKind::Type);
}

#[test]
fn constructor_unknown_calendar_is_a_range_error() {
    assert_eq!(construct(&[JsValue::BigInt(0), text("UTC"), text("martian")]).unwrap_err(), ErrorKind::Range);
}

#[test]
fn constructor_calendar_defaults_to_iso8601() {
    let value = construct(&[JsValue::BigInt(0), text("UTC")]).unwrap();
    assert_eq!(ZonedDateTime::get_calendar_id(&value).unwrap(), "iso8601");
}

#[test]
fn constructor_canonicalizes_the_calendar() {
    let value = construct(&[JsValue::BigInt(0), text("UTC"), text("JAPANESE")]).unwrap();
    assert_eq!(ZonedDateTime::get_calendar_id(&value).unwrap(), "japanese");
    let value = construct(&[JsValue::BigInt(0), text("UTC"), text("Iso8601")]).unwrap();
    assert_eq!(ZonedDateTime::get_calendar_id(&value).unwrap(), "iso8601");
}

#[test]
fn constructor_accepts_every_calendar_under_its_own_identifier() {
    let identifiers = [
        "buddhist", "chinese", "coptic", "dangi", "ethioaa", "ethiopic", "gregory", "hebrew",
        "indian", "islamic-civil", "islamic-tbla", "islamic-umalqura", "iso8601", "japanese",
        "persian", "roc",
    ];
    for identifier in identifiers {
        let value = construct(&[JsValue::BigInt(NEW_YEAR_2021), text("UTC"), text(identifier)])
            .unwrap_or_else(|e| panic!("{identifier}: {e:?}"));
        assert_eq!(ZonedDateTime::get_calendar_id(&value).unwrap(), identifier);
        assert_eq!(ZonedDateTime::get_epoch_nanosecond(&value).unwrap(), NEW_YEAR_2021);
    }
}

#[test]
fn constructor_spells_the_zone_as_the_database_does() {
    let value = construct(&[JsValue::BigInt(0), text("america/new_york")]).unwrap();
    assert_eq!(ZonedDateTime::get_timezone_id(&value).unwrap(), "America/New_York");
    let value = construct(&[JsValue::BigInt(0), text("EUROPE/vienna")]).unwrap();
    assert_eq!(ZonedDateTime::get_timezone_id(&value).unwrap(), "Europe/Vienna");
}

#[test]
fn constructor_keeps_the_name_that_a_zone_was_asked_for_by() {
    // Two names of one zone.
    for name in ["Asia/Calcutta", "Asia/Kolkata", "Etc/UTC", "UTC", "GMT", "US/Eastern"] {
        let value = construct(&[JsValue::BigInt(NEW_YEAR_2021), text(name)]).unwrap();
        assert_eq!(ZonedDateTime::get_timezone_id(&value).unwrap(), name);
        assert_eq!(ZonedDateTime::get_year(&value).unwrap(), if name == "US/Eastern" { 2020 } else { 2021 });
    }
}

#[test]
fn constructor_accepts_fixed_offsets() {
    let value = construct(&[JsValue::BigInt(0), text("+05:30")]).unwrap();
    assert_eq!(ZonedDateTime::get_timezone_id(&value).unwrap(), "+05:30");
    assert_eq!(ZonedDateTime::get_hour(&value).unwrap(), 5);
    assert_eq!(ZonedDateTime::get_minute(&value).unwrap(), 30);
    let value = construct(&[JsValue::BigInt(0), text("-0800")]).unwrap();
    assert_eq!(ZonedDateTime::get_timezone_id(&value).unwrap(), "-08:00");
    assert_eq!(ZonedDateTime::get_year(&value).unwrap(), 1969);
    assert_eq!(ZonedDateTime::get_month(&value).unwrap(), 12);
    assert_eq!(ZonedDateTime::get_day(&value).unwrap(), 31);
    assert_eq!(ZonedDateTime::get_hour(&value).unwrap(), 16);
}

#[test]
fn constructor_range_is_one_hundred_million_days_either_way() {
    for zone in ["UTC", "America/New_York", "+05:30"] {
        let last = construct(&[JsValue::BigInt(LAST_INSTANT), text(zone)]).unwrap();
        assert_eq!(ZonedDateTime::get_epoch_nanosecond(&last).unwrap(), LAST_INSTANT);
        let first = construct(&[JsValue::BigInt(-LAST_INSTANT), text(zone)]).unwrap();
        assert_eq!(ZonedDateTime::get_epoch_nanosecond(&first).unwrap(), -LAST_INSTANT);
        assert_eq!(construct(&[JsValue::BigInt(LAST_INSTANT + 1), text(zone)]).unwrap_err(), ErrorKind::Range);
        assert_eq!(construct(&[JsValue::BigInt(-LAST_INSTANT - 1), text(zone)]).unwrap_err(), ErrorKind::Range);
    }
    assert_eq!(construct(&[JsValue::BigInt(i128::MAX), text("UTC")]).unwrap_err(), ErrorKind::Range);
    assert_eq!(construct(&[JsValue::BigInt(i128::MIN), text("UTC")]).unwrap_err(), ErrorKind::Range);
}

#[test]
fn constructor_last_instant_reads_as_the_last_day() {
    let last = construct(&[JsValue::BigInt(LAST_INSTANT), text("UTC")]).unwrap();
    assert_eq!(ZonedDateTime::get_year(&last).unwrap(), 275_760);
    assert_eq!(ZonedDateTime::get_month(&last).unwrap(), 9);
    assert_eq!(ZonedDateTime::get_day(&last).unwrap(), 13);
    assert_eq!(ZonedDateTime::get_epoch_millisecond(&last).unwrap(), 8_640_000_000_000_000);
}
