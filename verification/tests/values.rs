use zoneddatetime::calendar::Calendar;
use zoneddatetime::duration::Duration;
use zoneddatetime::error::{EngineFault, ErrorKind, JsError};
use zoneddatetime::instant::{Instant, NS_MAX_INSTANT};
use zoneddatetime::options::{
    ArithmeticOverflow, Disambiguation, OffsetDisambiguation, Options, Policies,
};
use zoneddatetime::timezone::TimeZone;
use zoneddatetime::zoneddatetime::ZonedDateTime;

#[test]
fn instant_range_is_closed_at_both_ends() {
    assert_eq!(NS_MAX_INSTANT, 8_640_000_000_000_000_000_000);
    assert_eq!(NS_MAX_INSTANT, 100_000_000 * 86_400 * 1_000_000_000);
    assert_eq!(Instant::from_nanoseconds(NS_MAX_INSTANT).unwrap().epoch_nanoseconds(), NS_MAX_INSTANT);
    assert_eq!(Instant::from_nanoseconds(-NS_MAX_INSTANT).unwrap().epoch_nanoseconds(), -NS_MAX_INSTANT);
    assert_eq!(Instant::from_nanoseconds(0).unwrap().epoch_nanoseconds(), 0);
    assert_eq!(Instant::from_nanoseconds(NS_MAX_INSTANT + 1).unwrap_err().kind, ErrorKind::Range);
    assert_eq!(Instant::from_nanoseconds(-NS_MAX_INSTANT - 1).unwrap_err().kind, ErrorKind::Range);
    assert_eq!(Instant::from_nanoseconds(i128::MAX).unwrap_err().kind, ErrorKind::Range);
    assert_eq!(Instant::from_nanoseconds(i128::MIN).unwrap_err().kind, ErrorKind::Range);
}

#[test]
fn instant_addition_is_exact_or_a_range_error() {
    let i = Instant::from_nanoseconds(5).unwrap();
    assert_eq!(i.add_exact_nanoseconds(7).unwrap().epoch_nanoseconds(), 12);
    assert_eq!(i.add_exact_nanoseconds(-7).unwrap().epoch_nanoseconds(), -2);
    assert_eq!(i.add_exact_nanoseconds(NS_MAX_INSTANT - 5).unwrap().epoch_nanoseconds(), NS_MAX_INSTANT);
    assert_eq!(i.add_exact_nanoseconds(NS_MAX_INSTANT - 4).unwrap_err().kind, ErrorKind::Range);
    assert_eq!(i.add_exact_nanoseconds(i128::MAX).unwrap_err().kind, ErrorKind::Range);
    assert_eq!(i.add_exact_nanoseconds(i128::MIN).unwrap_err().kind, ErrorKind::Range);
    let first = Instant::from_nanoseconds(-NS_MAX_INSTANT).unwrap();
    assert_eq!(first.add_exact_nanoseconds(-1).unwrap_err().kind, ErrorKind::Range);
    assert_eq!(first.add_exact_nanoseconds(2 * NS_MAX_INSTANT).unwrap().epoch_nanoseconds(), NS_MAX_INSTANT);
    // An hour is 3.6 x 10^12 nanoseconds.
    let hour = Instant::from_nanoseconds(0).unwrap().add_exact_nanoseconds(3_600_000_000_000).unwrap();
    assert_eq!(hour.epoch_milliseconds(), 3_600_000);
}

#[test]
fn instant_milliseconds_round_towards_the_past() {
    let cases: [(i128, i64); 7] = [
        (0, 0),
        (1, 0),
        (999_999, 0),
        (1_000_000, 1),
        (-1, -1),
        (-999_999, -1),
        (-1_000_000, -1),
    ];
    for (nanos, millis) in cases {
        assert_eq!(Instant::from_nanoseconds(nanos).unwrap().epoch_milliseconds(), millis, "{nanos}");
    }
    assert_eq!(Instant::from_nanoseconds(-1_000_001).unwrap().epoch_milliseconds(), -2);
    assert_eq!(Instant::from_nanoseconds(NS_MAX_INSTANT).unwrap().epoch_milliseconds(), 8_640_000_000_000_000);
    assert_eq!(Instant::from_nanoseconds(-NS_MAX_INSTANT).unwrap().epoch_milliseconds(), -8_640_000_000_000_000);
}

fn valid(fields: (i64, i64, i64, i64, i64, i64, i64, i64, i128, i128)) -> bool {
    let (y, mo, w, d, h, mi, s, ms, us, ns) = fields;
    match Duration::new(y, mo, w, d, h, mi, s, ms, us, ns) {
        Ok(_) => true,
        Err(e) => {
            assert_eq!(e.kind, ErrorKind::Range);
            false
        }
    }
}

#[test]
fn duration_fields_must_share_a_sign() {
    assert!(valid((0, 0, 0, 0, 0, 0, 0, 0, 0, 0)));
    assert!(valid((1, 2, 3, 4, 5, 6, 7, 8, 9, 10)));
    assert!(valid((-1, -2, -3, -4, -5, -6, -7, -8, -9, -10)));
    assert!(valid((1, 0, 0, 0, 0, 0, 0, 0, 0, 1)));
    assert!(!valid((1, 0, 0, 0, 0, 0, 0, 0, 0, -1)));
    assert!(!valid((0, -1, 0, 1, 0, 0, 0, 0, 0, 0)));
    assert!(!valid((0, 0, 0, 0, 1, -1, 0, 0, 0, 0)));
}

#[test]
fn duration_calendar_fields_stay_under_two_to_the_thirty_second() {
    let limit: i64 = 4_294_967_296;
    assert!(valid((limit - 1, 0, 0, 0, 0, 0, 0, 0, 0, 0)));
    assert!(!valid((limit, 0, 0, 0, 0, 0, 0, 0, 0, 0)));
    assert!(valid((0, limit - 1, 0, 0, 0, 0, 0, 0, 0, 0)));
    assert!(!valid((0, limit, 0, 0, 0, 0, 0, 0, 0, 0)));
    assert!(valid((0, 0, limit - 1, 0, 0, 0, 0, 0, 0, 0)));
    assert!(!valid((0, 0, limit, 0, 0, 0, 0, 0, 0, 0)));
    assert!(valid((1 - limit, 0, 0, 0, 0, 0, 0, 0, 0, 0)));
    assert!(!valid((-limit, 0, 0, 0, 0, 0, 0, 0, 0, 0)));
    assert!(!valid((i64::MIN, 0, 0, 0, 0, 0, 0, 0, 0, 0)));
    assert!(!valid((i64::MAX, 0, 0, 0, 0, 0, 0, 0, 0, 0)));
}

#[test]
fn duration_time_stays_under_two_to_the_fifty_third_seconds() {
    let seconds: i64 = 9_007_199_254_740_992;
    let nanoseconds: i128 = 9_007_199_254_740_992_000_000_000;
    assert!(valid((0, 0, 0, 0, 0, 0, seconds - 1, 0, 0, 999_999_999)));
    assert!(!valid((0, 0, 0, 0, 0, 0, seconds, 0, 0, 0)));
    assert!(!valid((0, 0, 0, 0, 0, 0, seconds - 1, 0, 0, 1_000_000_000)));
    assert!(valid((0, 0, 0, 0, 0, 0, 0, 0, 0, nanoseconds - 1)));
    assert!(!valid((0, 0, 0, 0, 0, 0, 0, 0, 0, nanoseconds)));
    assert!(valid((0, 0, 0, 0, 0, 0, 0, 0, 0, 1 - nanoseconds)));
    assert!(!valid((0, 0, 0, 0, 0, 0, 0, 0, 0, -nanoseconds)));
    // Days count as twenty-four hours each towards the bound.
    assert!(valid((0, 0, 0, 104_249_991_374, 0, 0, 0, 0, 0, 0)));
    assert!(!valid((0, 0, 0, 104_249_991_375, 0, 0, 0, 0, 0, 0)));
    assert!(!valid((0, 0, 0, i64::MAX, 0, 0, 0, 0, 0, 0)));
    assert!(!valid((0, 0, 0, 0, i64::MAX, i64::MAX, i64::MAX, i64::MAX, i128::MAX, i128::MAX)));
    assert!(!valid((0, 0, 0, 0, i64::MIN, i64::MIN, i64::MIN, i64::MIN, i128::MIN, i128::MIN)));
}

#[test]
fn duration_negation_flips_every_field() {
    let d = Duration::new(1, 2, 3, 4, 5, 6, 7, 8, 9, 10).unwrap();
    assert_eq!(d.negated(), Duration::new(-1, -2, -3, -4, -5, -6, -7, -8, -9, -10).unwrap());
    assert_eq!(d.negated().negated(), d);
    let zero = Duration::new(0, 0, 0, 0, 0, 0, 0, 0, 0, 0).unwrap();
    assert_eq!(zero.negated(), zero);
}

#[test]
fn policies_are_read_from_their_words() {
    let word = |s: &str| s.to_string();
    assert_eq!(Disambiguation::parse(&word("compatible")), Some(Disambiguation::Compatible));
    assert_eq!(Disambiguation::parse(&word("earlier")), Some(Disambiguation::Earlier));
    assert_eq!(Disambiguation::parse(&word("later")), Some(Disambiguation::Later));
    assert_eq!(Disambiguation::parse(&word("reject")), Some(Disambiguation::Reject));
    assert_eq!(OffsetDisambiguation::parse(&word("use")), Some(OffsetDisambiguation::Use));
    assert_eq!(OffsetDisambiguation::parse(&word("prefer")), Some(OffsetDisambiguation::Prefer));
    assert_eq!(OffsetDisambiguation::parse(&word("ignore")), Some(OffsetDisambiguation::Ignore));
    assert_eq!(OffsetDisambiguation::parse(&word("reject")), Some(OffsetDisambiguation::Reject));
    assert_eq!(ArithmeticOverflow::parse(&word("constrain")), Some(ArithmeticOverflow::Constrain));
    assert_eq!(ArithmeticOverflow::parse(&word("reject")), Some(ArithmeticOverflow::Reject));
    for bad in ["", "Compatible", "compatible ", "use", "constrain"] {
        assert_eq!(Disambiguation::parse(&word(bad)), None, "{bad}");
    }
    for bad in ["", "USE", "compatible", "constrain", "rejec"] {
        assert_eq!(OffsetDisambiguation::parse(&word(bad)), None, "{bad}");
    }
    for bad in ["", "Reject", "compatible", "use", "constrained"] {
        assert_eq!(ArithmeticOverflow::parse(&word(bad)), None, "{bad}");
    }
}

#[test]
fn policies_and_their_words_round_trip() {
    for p in [Disambiguation::Compatible, Disambiguation::Earlier, Disambiguation::Later, Disambiguation::Reject] {
        assert_eq!(Disambiguation::parse(&p.as_str().to_string()), Some(p));
    }
    for p in [OffsetDisambiguation::Use, OffsetDisambiguation::Prefer, OffsetDisambiguation::Ignore, OffsetDisambiguation::Reject] {
        assert_eq!(OffsetDisambiguation::parse(&p.as_str().to_string()), Some(p));
    }
    for p in [ArithmeticOverflow::Constrain, ArithmeticOverflow::Reject] {
        assert_eq!(ArithmeticOverflow::parse(&p.as_str().to_string()), Some(p));
    }
}

#[test]
fn options_default_each_entry_on_its_own() {
    let empty = Options::empty();
    assert_eq!(
        empty.policies().unwrap(),
        Policies {
            disambiguation: Disambiguation::Compatible,
            offset: OffsetDisambiguation::Reject,
            overflow: ArithmeticOverflow::Constrain,
        }
    );
    let some = Options { disambiguation: Some("later".to_string()), offset: None, overflow: Some("reject".to_string()) };
    assert_eq!(
        some.policies().unwrap(),
        Policies {
            disambiguation: Disambiguation::Later,
            offset: OffsetDisambiguation::Reject,
            overflow: ArithmeticOverflow::Reject,
        }
    );
    assert_eq!(some.get_disambiguation().unwrap(), Disambiguation::Later);
    assert_eq!(some.get_offset().unwrap(), OffsetDisambiguation::Reject);
    assert_eq!(some.get_overflow().unwrap(), ArithmeticOverflow::Reject);
}

#[test]
fn options_with_one_bad_entry_are_a_range_error() {
    let bad = |d: Option<&str>, o: Option<&str>, v: Option<&str>| Options {
        disambiguation: d.map(String::from),
        offset: o.map(String::from),
        overflow: v.map(String::from),
    };
    assert_eq!(bad(Some("x"), None, None).policies().unwrap_err().kind, ErrorKind::Range);
    assert_eq!(bad(None, Some("x"), None).policies().unwrap_err().kind, ErrorKind::Range);
    assert_eq!(bad(None, None, Some("x")).policies().unwrap_err().kind, ErrorKind::Range);
    assert_eq!(bad(Some("x"), None, None).get_disambiguation().unwrap_err().kind, ErrorKind::Range);
    assert_eq!(bad(None, Some("x"), None).get_offset().unwrap_err().kind, ErrorKind::Range);
    assert_eq!(bad(None, None, Some("x")).get_overflow().unwrap_err().kind, ErrorKind::Range);
    // A bad entry does not spoil the reading of another.
    assert_eq!(bad(Some("x"), Some("use"), None).get_offset().unwrap(), OffsetDisambiguation::Use);
}

#[test]
fn errors_have_three_kinds() {
    assert_eq!(JsError::typ().kind, ErrorKind::Type);
    assert_eq!(JsError::range().kind, ErrorKind::Range);
    assert_eq!(JsError::unsupported().kind, ErrorKind::Unsupported);
    assert_eq!(JsError::from_engine(EngineFault::Type).kind, ErrorKind::Type);
    assert_eq!(JsError::from_engine(EngineFault::Other).kind, ErrorKind::Range);
}

#[test]
fn zones_are_known_by_their_identifiers() {
    assert_eq!(TimeZone::utc().identifier(), "UTC");
    assert_eq!(TimeZone::try_from_str("UTC").unwrap(), TimeZone::utc());
    assert_eq!(TimeZone::try_from_str("asia/tokyo").unwrap().identifier(), "Asia/Tokyo");
    assert_eq!(TimeZone::try_from_str("+01").unwrap().identifier(), "+01:00");
    assert_eq!(TimeZone::try_from_str("-00:00").unwrap().identifier(), "+00:00");
    assert_eq!(TimeZone::try_from_str("Asia/Tokyo").unwrap(), TimeZone::try_from_str("asia/tokyo").unwrap());
    assert_ne!(TimeZone::try_from_str("Asia/Tokyo").unwrap(), TimeZone::try_from_str("+09:00").unwrap());
    assert_eq!(TimeZone::try_from_str("Nowhere/Nothing").unwrap_err().kind, ErrorKind::Range);
    assert_eq!(TimeZone::try_from_str("").unwrap_err().kind, ErrorKind::Range);
    let zone = TimeZone::try_from_str("Europe/Vienna").unwrap();
    assert_eq!(zone.clone(), zone);
}

#[test]
fn zones_are_named_or_fixed() {
    for fixed in ["+05:30", "-08:00", "+00:00", "-0330"] {
        assert!(TimeZone::try_from_str(fixed).unwrap().is_fixed_offset(), "{fixed}");
    }
    for named in ["UTC", "America/New_York", "Etc/GMT+5", "Etc/GMT-14", "GMT"] {
        assert!(!TimeZone::try_from_str(named).unwrap().is_fixed_offset(), "{named}");
    }
}

#[test]
fn calendars_are_known_by_their_canonical_identifiers() {
    assert_eq!(Calendar::default().identifier(), "iso8601");
    assert_eq!(Calendar::from_str("iso8601").unwrap(), Calendar::default());
    assert_eq!(Calendar::from_str("ISO8601").unwrap().identifier(), "iso8601");
    assert_eq!(Calendar::from_str("Hebrew").unwrap().identifier(), "hebrew");
    assert_eq!(Calendar::from_str("islamicc").unwrap().identifier(), "islamic-civil");
    assert_eq!(Calendar::from_str("2021-06-01[u-ca=hebrew]").unwrap().identifier(), "hebrew");
    assert_eq!(Calendar::from_str("2021-06-01").unwrap().identifier(), "iso8601");
    assert_eq!(Calendar::from_str("martian").unwrap_err().kind, ErrorKind::Range);
    assert_eq!(Calendar::from_str("").unwrap_err().kind, ErrorKind::Range);
    let calendar = Calendar::from_str("japanese").unwrap();
    assert_eq!(calendar.clone(), calendar);
}

#[test]
fn zoned_date_time_is_built_from_its_three_parts() {
    let z = ZonedDateTime::try_new(1, TimeZone::try_from_str("Asia/Tokyo").unwrap(), Calendar::from_str("japanese").unwrap()).unwrap();
    assert_eq!(z.instant().epoch_nanoseconds(), 1);
    assert_eq!(z.time_zone().identifier(), "Asia/Tokyo");
    assert_eq!(z.calendar().identifier(), "japanese");
    let copy = z.clone();
    assert_eq!(copy, z);
    assert_eq!(copy.instant(), z.instant());
    assert_eq!(copy.time_zone(), z.time_zone());
    assert_eq!(copy.calendar(), z.calendar());
    let other = ZonedDateTime::try_new(2, TimeZone::try_from_str("Asia/Tokyo").unwrap(), Calendar::from_str("japanese").unwrap()).unwrap();
    assert_ne!(other, z);
    let r = ZonedDateTime::try_new(NS_MAX_INSTANT + 1, TimeZone::utc(), Calendar::default());
    assert_eq!(r.unwrap_err().kind, ErrorKind::Range);
}
