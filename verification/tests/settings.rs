//! Configuration loading, the expiration allow-list, and the
//! request-level helpers.

use filedrop::config::{
    choose_duration_minutes, minutes_to_seconds, parse_allowed_durations, Config,
};
use filedrop::text::{contains_substr, parse_u64, u64_to_string};
use filedrop::web::{expiration_choices, get_origin, is_terminal_client, upload_listing, upload_url};
use filedrop::upload::Upload;

fn vars(pairs: &[(&str, &str)]) -> Vec<(String, String)> {
    pairs.iter().map(|(k, v)| (k.to_string(), v.to_string())).collect()
}

#[test]
fn from_env_applies_documented_defaults() {
    let c = Config::from_env(&vars(&[("AWS_BUCKET", "drop")])).unwrap();
    assert_eq!(c.aws_bucket, "drop");
    assert_eq!(c.max_upload_size, 10);
    assert_eq!(c.allowed_durations, "30,60,360,1440,10080");
    assert_eq!(c.id_length, 8);
    assert_eq!(c.socket_addr, "0.0.0.0:8080");
}

#[test]
fn from_env_reads_overrides_case_insensitively() {
    let c = Config::from_env(&vars(&[
        ("AWS_BUCKET", "b"),
        ("MAX_UPLOAD_SIZE", "25"),
        ("ID_LENGTH", "12"),
        ("SOCKET_ADDR", "127.0.0.1:9000"),
        ("ALLOWED_DURATIONS", "5,10"),
    ]))
    .unwrap();
    assert_eq!(c.max_upload_size, 25);
    assert_eq!(c.id_length, 12);
    assert_eq!(c.socket_addr, "127.0.0.1:9000");
    assert_eq!(c.allowed_durations, "5,10");
}

#[test]
fn from_env_requires_a_bucket() {
    let err = Config::from_env(&vars(&[("ID_LENGTH", "8")])).unwrap_err();
    assert!(err.is_validation());
}

#[test]
fn from_env_rejects_unparsable_numbers() {
    assert!(Config::from_env(&vars(&[("AWS_BUCKET", "b"), ("ID_LENGTH", "many")])).is_err());
    assert!(Config::from_env(&vars(&[("AWS_BUCKET", "b"), ("ID_LENGTH", "300")])).is_err());
    assert!(
        Config::from_env(&vars(&[("AWS_BUCKET", "b"), ("MAX_UPLOAD_SIZE", "ten")])).is_err()
    );
}

#[test]
fn durations_parse_with_trimming_and_dropped_entries() {
    assert_eq!(
        parse_allowed_durations("30,60,360,1440,10080"),
        vec![30, 60, 360, 1440, 10080]
    );
    assert_eq!(parse_allowed_durations(" 30 ,\tx, 99999999999999999999 ,60"), vec![30, 60]);
    assert_eq!(parse_allowed_durations(""), Vec::<u64>::new());
    assert_eq!(parse_allowed_durations(",5,"), vec![5]);
}

#[test]
fn disallowed_expiration_falls_back_to_first_allowed() {
    let allowed = vec![30u64, 60, 360, 1440, 10080];
    assert_eq!(choose_duration_minutes(&allowed, Some(999)), 30);
    assert_eq!(choose_duration_minutes(&allowed, Some(60)), 60);
    assert_eq!(choose_duration_minutes(&allowed, None), 30);
    assert_eq!(choose_duration_minutes(&Vec::new(), Some(999)), 30);
}

#[test]
fn minutes_convert_and_saturate() {
    assert_eq!(minutes_to_seconds(30), 1800);
    assert_eq!(minutes_to_seconds(u64::MAX), u64::MAX);
}

#[test]
fn expiration_choices_carry_human_labels() {
    let choices = expiration_choices(&vec![30, 60, 1440]);
    assert_eq!(
        choices,
        vec![
            (30, "30m".to_string()),
            (60, "1h".to_string()),
            (1440, "1day".to_string()),
        ]
    );
}

#[test]
fn decimal_rendering_is_exact() {
    assert_eq!(u64_to_string(0), "0");
    assert_eq!(u64_to_string(7), "7");
    assert_eq!(u64_to_string(1050), "1050");
    assert_eq!(u64_to_string(u64::MAX), "18446744073709551615");
}

#[test]
fn decimal_parsing_is_exact() {
    assert_eq!(parse_u64("123"), Some(123));
    assert_eq!(parse_u64("+123"), Some(123));
    assert_eq!(parse_u64("0"), Some(0));
    assert_eq!(parse_u64(""), None);
    assert_eq!(parse_u64("+"), None);
    assert_eq!(parse_u64("12a"), None);
    assert_eq!(parse_u64("-1"), None);
    assert_eq!(parse_u64("18446744073709551615"), Some(u64::MAX));
    assert_eq!(parse_u64("18446744073709551616"), None);
}

#[test]
fn substring_search_matches_std() {
    for (h, n) in [
        ("text/plain; charset=utf-8", "text/plain"),
        ("image/png", "image/"),
        ("video/mp40", "video/mp4"),
        ("application/pdf", "image/"),
        ("", ""),
        ("abc", ""),
        ("", "a"),
    ] {
        assert_eq!(contains_substr(h, n), h.contains(n), "{h:?} contains {n:?}");
    }
}

#[test]
fn origin_prefers_forwarded_headers() {
    assert_eq!(
        get_origin(Some("https"), Some("files.example"), Some("internal:8080")),
        "https://files.example"
    );
    assert_eq!(get_origin(None, None, Some("internal:8080")), "http://internal:8080");
    assert_eq!(get_origin(None, None, None), "http://localhost");
}

#[test]
fn terminal_clients_are_those_without_mozilla() {
    assert!(is_terminal_client(Some("curl/8.0")));
    assert!(!is_terminal_client(Some("Mozilla/5.0 (X11; Linux)")));
    assert!(!is_terminal_client(Some("MOZILLA")));
    assert!(!is_terminal_client(None));
}

#[test]
fn listing_writes_one_url_per_line() {
    let mut up1 = Upload::begin_at(4, 60, 0, None, None);
    let mut up2 = Upload::begin_at(4, 60, 0, None, None);
    up1.opened(Ok(Some("s1".to_string()))).unwrap();
    up2.opened(Ok(Some("s2".to_string()))).unwrap();
    up1.end_of_stream();
    up2.end_of_stream();
    let a = up1.completed(Ok(())).unwrap();
    let b = up2.completed(Ok(())).unwrap();
    let origin = "http://h";
    let listing = upload_listing(origin, &vec![a, b]);
    let lines: Vec<&str> = listing.lines().collect();
    assert_eq!(lines.len(), 2);
    assert!(lines[0].starts_with("http://h/"));
    assert_eq!(upload_url(origin, "abc"), "http://h/abc");
}
