use chrono::{NaiveDate, TimeZone, Utc};
use raster_pipeline::error::Error;
use raster_pipeline::pixel::Pixel;
use raster_pipeline::time::{change_detection_instants, TimeInterval};

#[test]
fn the_fixed_instants_are_the_two_twenty_fourteen_dates() {
    let (before, after) = change_detection_instants();
    assert_eq!(before, TimeInterval { start: 1_388_534_400_000, end: 1_388_534_400_000 });
    assert_eq!(after, TimeInterval { start: 1_401_580_800_000, end: 1_401_580_800_000 });
    // Cross-check the two constants against the calendar library itself.
    let jan = Utc.from_utc_datetime(
        &NaiveDate::from_ymd_opt(2014, 1, 1).unwrap().and_hms_opt(0, 0, 0).unwrap(),
    );
    let jun = Utc.from_utc_datetime(
        &NaiveDate::from_ymd_opt(2014, 6, 1).unwrap().and_hms_opt(0, 0, 0).unwrap(),
    );
    assert_eq!(before.start, jan.timestamp_millis());
    assert_eq!(after.start, jun.timestamp_millis());
}

/// The civil-calendar day count from the Unix epoch, reckoned over
/// 400-year eras — the count the library's time contracts are stated in.
fn civil_days_from_epoch(y: i64, m: i64, d: i64) -> i64 {
    let yy = if m <= 2 { y - 1 } else { y };
    let era = yy.div_euclid(400);
    let yoe = yy - era * 400;
    let mp = if m > 2 { m - 3 } else { m + 9 };
    let doy = (153 * mp + 2) / 5 + d - 1;
    let doe = yoe * 365 + yoe / 4 - yoe / 100 + doy;
    era * 146097 + doe - 719468
}

#[test]
fn the_civil_day_count_agrees_with_the_calendar_library() {
    let dates = [
        (1970, 1, 1),
        (1970, 12, 31),
        (1969, 12, 31),
        (1972, 2, 29),
        (1900, 2, 28),
        (2000, 2, 29),
        (2000, 3, 1),
        (2014, 1, 1),
        (2014, 6, 1),
        (2023, 4, 30),
        (1, 1, 1),
        (9999, 12, 31),
    ];
    for (y, m, d) in dates {
        let millis = Utc
            .from_utc_datetime(
                &NaiveDate::from_ymd_opt(y as i32, m as u32, d as u32)
                    .unwrap()
                    .and_hms_opt(0, 0, 0)
                    .unwrap(),
            )
            .timestamp_millis();
        assert_eq!(millis, 86_400_000 * civil_days_from_epoch(y, m, d));
    }
}

#[test]
fn time_intervals_reject_an_end_before_the_start() {
    assert!(TimeInterval::new(3, 2).is_none());
    assert_eq!(TimeInterval::new(2, 3), Some(TimeInterval { start: 2, end: 3 }));
    assert_eq!(TimeInterval::at_instant(7), TimeInterval { start: 7, end: 7 });
}

#[test]
fn pixel_addition_wraps_at_the_representation_bounds() {
    assert_eq!(255u8.add_px(1), 0);
    assert_eq!(250u8.add_px(10), 4);
    assert_eq!(127i8.add_px(1), -128);
    assert_eq!((-128i8).add_px(-1), 127);
    assert_eq!(u64::MAX.add_px(2), 1);
    assert_eq!(i64::MIN.add_px(-1), i64::MAX);
    assert_eq!(3u16.add_px(4), 7);
}

#[test]
fn pixel_narrowing_fails_exactly_out_of_range() {
    assert_eq!(<u8 as Pixel>::narrow(255), Some(255u8));
    assert_eq!(<u8 as Pixel>::narrow(256), None);
    assert_eq!(<u8 as Pixel>::narrow(-1), None);
    assert_eq!(<i16 as Pixel>::narrow(-32768), Some(-32768i16));
    assert_eq!(<i16 as Pixel>::narrow(-32769), None);
    assert_eq!(<u64 as Pixel>::narrow(u64::MAX as i128), Some(u64::MAX));
}

#[test]
fn pixel_saturating_narrowing_clamps() {
    assert_eq!(<u8 as Pixel>::narrow_saturating(300), 255u8);
    assert_eq!(<u8 as Pixel>::narrow_saturating(-5), 0u8);
    assert_eq!(<u8 as Pixel>::narrow_saturating(42), 42u8);
    assert_eq!(<i8 as Pixel>::narrow_saturating(-1000), -128i8);
    assert_eq!(<i32 as Pixel>::narrow_saturating(1 << 40), i32::MAX);
}

#[test]
fn widening_round_trips_through_the_exchange_integer() {
    assert_eq!(<u32 as Pixel>::narrow(4_000_000_000u32.widen()), Some(4_000_000_000u32));
    assert_eq!(<i64 as Pixel>::narrow(i64::MIN.widen()), Some(i64::MIN));
    assert_eq!(<u8 as Pixel>::zero(), 0);
    assert!(7u8.eq_px(7));
    assert!(!7u8.eq_px(8));
}

#[test]
fn error_kinds_report_their_names() {
    assert_eq!(
        Error::InvalidNumberOfRasterInputs { expected_min: 1, expected_max: 2, found: 0 }
            .kind_name(),
        "InvalidNumberOfRasterInputsError"
    );
    assert_eq!(
        Error::InvalidNumberOfVectorInputs { expected_min: 0, expected_max: 1, found: 3 }
            .kind_name(),
        "InvalidNumberOfVectorInputsError"
    );
    assert_eq!(Error::Shape { expected: 6, found: 5 }.kind_name(), "ShapeError");
    assert_eq!(Error::Geometry.kind_name(), "GeometryError");
    assert_eq!(Error::Upstream.kind_name(), "UpstreamError");
    assert_eq!(Error::ComputeEngine.kind_name(), "ComputeEngineError");
}
