use clinic::error::CoreError;
use clinic::protocol::SimpleResponse;
use clinic::utils::{
    assert_gender_str, format_time_str, get_str_pattern, get_str_pattern_opt, get_time_from_str,
    get_time_pair_from_date_opt, get_time_str, parse_time_pair_str, parse_time_pair_str_opt,
    parse_time_str, TIME_AM, TIME_PM,
};

#[test]
fn gender_labels() {
    assert_eq!(assert_gender_str("男"), Ok(()));
    assert_eq!(assert_gender_str("女"), Ok(()));
    assert_eq!(assert_gender_str("x"), Err(CoreError::InvalidGender));
}

#[test]
fn like_patterns() {
    assert_eq!(get_str_pattern("ab"), "%ab%");
    assert_eq!(get_str_pattern_opt(Some("ab")), "%ab%");
    assert_eq!(get_str_pattern_opt(None), "%");
}

#[test]
fn time_parsing() {
    assert_eq!(parse_time_str("2021-05-01T09:00:00+00:00"), Ok(1619859600));
    assert_eq!(parse_time_str("2021-05-01T11:00:00+02:00"), Ok(1619859600));
    assert_eq!(parse_time_str("2021-05-01T09:00:00.000Z"), Ok(1619859600));
    assert_eq!(parse_time_str("yesterday"), Err(CoreError::InvalidTime));
    assert_eq!(
        parse_time_pair_str("2021-05-01T09:00:00Z", "2021-05-01T11:00:00Z"),
        Ok((1619859600, 1619866800))
    );
    assert_eq!(parse_time_pair_str("2021-05-01T09:00:00Z", "bad"), Err(CoreError::InvalidTime));
    assert_eq!(parse_time_pair_str_opt(None, None), Ok((-2177452800, 29379542400)));
    assert_eq!(
        parse_time_pair_str_opt(Some("2021-05-01T09:00:00Z"), None),
        Ok((1619859600, 29379542400))
    );
}

#[test]
fn day_and_half_day_ranges() {
    assert_eq!(get_time_pair_from_date_opt(Some("2021-05-01")), Ok((1619827200, 1619913599)));
    assert_eq!(get_time_pair_from_date_opt(None), Ok((-2177452800, 29379542400)));
    assert_eq!(get_time_pair_from_date_opt(Some("05/01")), Err(CoreError::InvalidTime));
    assert_eq!(get_time_from_str("2021-05-01", TIME_AM), Ok((1619859600, 1619866800)));
    assert_eq!(get_time_from_str("2021-05-01", TIME_PM), Ok((1619881200, 1619888400)));
    assert_eq!(get_time_from_str("2021-05-01", "evening"), Err(CoreError::InvalidTime));
}

#[test]
fn half_day_labels() {
    assert_eq!(get_time_str(1619859600, 1619866800), TIME_AM);
    assert_eq!(get_time_str(1619881200, 1619888400), TIME_PM);
    assert_eq!(get_time_str(0, 43200), TIME_PM);
    assert_eq!(get_time_str(0, 43199), TIME_AM);
}

#[test]
fn time_formatting() {
    assert_eq!(format_time_str(1619859600), Some("2021-05-01T09:00:00+00:00".to_string()));
    assert_eq!(format_time_str(i64::MAX), None);
}

#[test]
fn simple_responses() {
    let ok = SimpleResponse::ok();
    assert!(ok.success);
    assert_eq!(ok.err, "");
    let e = SimpleResponse::err("boom");
    assert!(!e.success);
    assert_eq!(e.err, "boom");
}
