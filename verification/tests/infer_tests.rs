use datetime_infer::infer::{compile_single, DatetimeInfer, InferError};
use datetime_infer::patterns::{LogicalType, Pattern};

fn col(vals: &[Option<&str>]) -> Vec<Option<String>> {
    vals.iter().map(|o| o.map(|s| s.to_string())).collect()
}

#[test]
fn detect_no_match() {
    assert_eq!(compile_single("not a date"), None);
    assert_eq!(compile_single(""), None);
}

#[test]
fn detect_datetime_ymd() {
    assert_eq!(
        compile_single("2021-05-06 10:00:00"),
        Some(Pattern::DatetimeYMD)
    );
}

#[test]
fn detect_date_families() {
    assert_eq!(compile_single("06/05/2021"), Some(Pattern::DateDMY));
    assert_eq!(compile_single("06-05-2021"), Some(Pattern::DateDMY));
    assert_eq!(compile_single("2021-05-06"), Some(Pattern::DateYMD));
    assert_eq!(compile_single("2021/05/06"), Some(Pattern::DateYMD));
    assert_eq!(
        compile_single("06/05/2021 10:00:00"),
        Some(Pattern::DatetimeDMY)
    );
}

#[test]
fn detect_dmy_scanned_before_ymd() {
    // "11/11/11" parses under "%d/%m/%Y" (day 11, month 11, year 11) and
    // under "%Y/%m/%d" (year 11, month 11, day 11); the DMY catalog is
    // scanned first, so that family wins.
    assert_eq!(compile_single("11/11/11"), Some(Pattern::DateDMY));
}

#[test]
fn detect_date_scanned_before_datetime() {
    // A plain date never reaches the datetime families.
    assert_eq!(compile_single("2021-05-06"), Some(Pattern::DateYMD));
}

#[test]
fn detect_first_matching_pattern_parses() {
    // The family that detection returns parses the sample itself: a fresh
    // converter for it succeeds on the very sample.
    let fam = compile_single("03-04-2021").unwrap();
    assert_eq!(fam, Pattern::DateDMY);
    let mut inf = DatetimeInfer::<i32>::try_from(fam).unwrap();
    assert!(inf.parse("03-04-2021").is_some());
    assert_eq!(inf.latest_pattern(), "%d-%m-%Y");
}

#[test]
fn construction_rejects_wrong_kind() {
    assert_eq!(
        DatetimeInfer::<i32>::try_from(Pattern::DatetimeDMY).unwrap_err(),
        InferError::UnsupportedPattern
    );
    assert_eq!(
        DatetimeInfer::<i32>::try_from(Pattern::DatetimeYMD).unwrap_err(),
        InferError::UnsupportedPattern
    );
    assert_eq!(
        DatetimeInfer::<i64>::try_from(Pattern::DateDMY).unwrap_err(),
        InferError::UnsupportedPattern
    );
    assert_eq!(
        DatetimeInfer::<i64>::try_from(Pattern::DateYMD).unwrap_err(),
        InferError::UnsupportedPattern
    );
}

#[test]
fn parse_day_counts() {
    let mut inf = DatetimeInfer::<i32>::try_from(Pattern::DateDMY).unwrap();
    // 2020-02-01 is 18293 days after the epoch day.
    assert_eq!(inf.parse("01/02/2020"), Some(18293));
    // Day counts before the epoch are negative: 1960-01-01.
    assert_eq!(inf.parse("01/01/1960"), Some(-3653));
    assert_eq!(inf.parse("29/02/2021"), None); // not a leap year
}

#[test]
fn parse_microsecond_timestamps() {
    let mut ymd = DatetimeInfer::<i64>::try_from(Pattern::DatetimeYMD).unwrap();
    assert_eq!(
        ymd.parse("2021-05-06 10:00:00"),
        Some(1_620_295_200_000_000)
    );
    let mut dmy = DatetimeInfer::<i64>::try_from(Pattern::DatetimeDMY).unwrap();
    assert_eq!(
        dmy.parse("06/05/2021 10:00:00"),
        Some(1_620_295_200_000_000)
    );
}

#[test]
fn adaptive_cache_switches_once() {
    let mut inf = DatetimeInfer::<i32>::try_from(Pattern::DateDMY).unwrap();
    assert_eq!(inf.latest_pattern(), "%d/%m/%Y");
    assert_eq!(inf.parse("01/02/2020"), Some(18293));
    assert_eq!(inf.latest_pattern(), "%d/%m/%Y");
    // Drift: the first dashed value moves the cache to "%d-%m-%Y" ...
    assert_eq!(inf.parse("03-04-2021"), Some(18720));
    assert_eq!(inf.latest_pattern(), "%d-%m-%Y");
    // ... and later dashed values leave it there (fast path).
    assert_eq!(inf.parse("04-05-2021"), Some(18751));
    assert_eq!(inf.latest_pattern(), "%d-%m-%Y");
    // A failed parse leaves the cache unchanged.
    assert_eq!(inf.parse("bad"), None);
    assert_eq!(inf.latest_pattern(), "%d-%m-%Y");
}

#[test]
fn coerce_mixed_formats_column() {
    let mut inf = DatetimeInfer::<i32>::try_from(Pattern::DateDMY).unwrap();
    let ca = col(&[Some("01/02/2020"), Some("03-04-2021"), Some("bad"), None]);
    let out = inf.coerce_utf8(&ca);
    assert_eq!(out.values, vec![Some(18293), Some(18720), None, None]);
    assert_eq!(out.logical_type, LogicalType::Date);
    assert_eq!(inf.latest_pattern(), "%d-%m-%Y");
}

#[test]
fn coerce_preserves_length_and_missing_slots() {
    let mut inf = DatetimeInfer::<i64>::try_from(Pattern::DatetimeYMD).unwrap();
    let ca = col(&[
        None,
        Some("2021-05-06 10:00:00"),
        Some("zzz"),
        None,
        Some("2021/05/06 10:00:00"),
    ]);
    let out = inf.coerce_utf8(&ca);
    assert_eq!(out.values.len(), ca.len());
    assert_eq!(out.logical_type, LogicalType::DatetimeMicroseconds);
    for (slot_in, slot_out) in ca.iter().zip(out.values.iter()) {
        if slot_in.is_none() {
            assert!(slot_out.is_none());
        }
    }
    assert_eq!(out.values[1], Some(1_620_295_200_000_000));
    assert_eq!(out.values[2], None);
    assert_eq!(out.values[4], Some(1_620_295_200_000_000));
    // The slashed value at the end moved the cache within the family.
    assert_eq!(inf.latest_pattern(), "%Y/%m/%d %H:%M:%S");
}

#[test]
fn parse_ymd_day_counts() {
    let mut inf = DatetimeInfer::<i32>::try_from(Pattern::DateYMD).unwrap();
    assert_eq!(inf.parse("2020-02-01"), Some(18293));
    assert_eq!(inf.parse("1970/01/01"), Some(0));
    assert_eq!(inf.parse("01/02/2020"), None); // day-month-year shape
}

#[test]
fn coerce_chunked_matches_whole() {
    let whole = col(&[
        Some("01/02/2020"),
        Some("03-04-2021"),
        None,
        Some("bad"),
        Some("04-05-2021"),
        Some("01/01/1960"),
    ]);
    let (left, right) = whole.split_at(2);

    let mut one = DatetimeInfer::<i32>::try_from(Pattern::DateDMY).unwrap();
    let all = one.coerce_utf8(&whole);

    let mut first = DatetimeInfer::<i32>::try_from(Pattern::DateDMY).unwrap();
    let mut second = DatetimeInfer::<i32>::try_from(Pattern::DateDMY).unwrap();
    let mut chunked = first.coerce_utf8(&left.to_vec()).values;
    chunked.extend(second.coerce_utf8(&right.to_vec()).values);

    assert_eq!(all.values, chunked);
}

#[test]
fn coerce_empty_column() {
    let mut inf = DatetimeInfer::<i32>::try_from(Pattern::DateYMD).unwrap();
    let out = inf.coerce_utf8(&Vec::new());
    assert!(out.values.is_empty());
    assert_eq!(out.logical_type, LogicalType::Date);
    assert_eq!(inf.latest_pattern(), "%Y-%m-%d");
}
