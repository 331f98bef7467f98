//! The retrieval policy: expiration judgement and derived headers.

use filedrop::object::Object;
use filedrop::upload::Upload;
use filedrop::web::{evaluate_retrieval, Retrieval};

fn object(
    content_type: Option<&str>,
    e_tag: Option<&str>,
    content_length: Option<u64>,
    expires: Option<&str>,
    file_name: Option<&str>,
) -> Object {
    Object {
        content_type: content_type.map(String::from),
        e_tag: e_tag.map(String::from),
        content_length,
        expires: expires.map(String::from),
        file_name: file_name.map(String::from),
    }
}

fn rfc2822(t: i64) -> String {
    chrono::DateTime::from_timestamp(t, 0).unwrap().to_rfc2822()
}

#[test]
fn one_second_past_is_expired() {
    let now = chrono::Utc::now().timestamp();
    let o = object(None, None, None, Some(&rfc2822(now - 1)), None);
    assert!(o.is_expired_at(now));
    assert!(o.is_expired());
}

#[test]
fn one_hour_ahead_is_not_expired() {
    let now = chrono::Utc::now().timestamp();
    let o = object(None, None, None, Some(&rfc2822(now + 3600)), None);
    assert!(!o.is_expired_at(now));
    assert!(!o.is_expired());
}

#[test]
fn missing_expiration_never_expires() {
    let o = object(None, None, None, None, None);
    assert!(!o.is_expired_at(i64::MAX));
    assert!(!o.is_expired());
}

#[test]
fn unparsable_expiration_never_expires() {
    let o = object(None, None, None, Some("sometime soon"), None);
    assert!(!o.is_expired_at(i64::MAX));
    assert!(!o.is_expired());
}

#[test]
fn expiration_boundary_is_strict() {
    let now = chrono::Utc::now().timestamp();
    let o = object(None, None, None, Some(&rfc2822(now)), None);
    assert!(!o.is_expired_at(now), "an object expiring exactly now is not yet expired");
    assert!(o.is_expired_at(now + 1));
}

#[test]
fn upload_expiration_date_round_trips() {
    let now = 1_700_000_000i64;
    let up = Upload::begin_at(8, 1800, now, None, None);
    assert_eq!(up.expiration_secs, now + 1800);
    let parsed = chrono::DateTime::parse_from_rfc2822(&up.expiration_date).unwrap();
    assert_eq!(parsed.timestamp(), now + 1800);
}

#[test]
fn content_type_header_comes_first_with_default() {
    let o = object(None, None, None, None, None);
    let h = o.headers();
    assert_eq!(h[0], ("content-type".to_string(), "application/octet-stream".to_string()));
    assert_eq!(h.len(), 1);
}

#[test]
fn etag_and_length_follow_when_present() {
    let o = object(Some("image/png"), Some("\"abc\""), Some(12345), None, Some("x.png"));
    let h = o.headers();
    assert_eq!(
        h,
        vec![
            ("content-type".to_string(), "image/png".to_string()),
            ("etag".to_string(), "\"abc\"".to_string()),
            ("content-length".to_string(), "12345".to_string()),
        ]
    );
}

#[test]
fn inline_safe_png_gets_no_disposition() {
    let o = object(Some("image/png"), None, None, None, Some("a.png"));
    let h = o.headers();
    assert!(h.iter().all(|(n, _)| n != "content-disposition"));
}

#[test]
fn pdf_with_recoverable_name_is_an_attachment() {
    let o = object(Some("application/pdf"), None, None, None, Some("a.pdf"));
    let h = o.headers();
    assert!(h.contains(&(
        "content-disposition".to_string(),
        "attachment; filename=\"a.pdf\"".to_string()
    )));
}

#[test]
fn text_plain_and_mp4_stay_inline() {
    for ct in ["text/plain", "text/plain; charset=utf-8", "video/mp4"] {
        let o = object(Some(ct), None, None, None, Some("a.bin"));
        let h = o.headers();
        assert!(h.iter().all(|(n, _)| n != "content-disposition"), "{ct} renders inline");
    }
}

#[test]
fn html_without_a_name_gets_no_disposition() {
    let o = object(Some("text/html"), None, None, None, None);
    let h = o.headers();
    assert!(h.iter().all(|(n, _)| n != "content-disposition"));
}

#[test]
fn unencodable_name_is_silently_omitted() {
    let o = object(Some("text/html"), None, None, None, Some("a b.html"));
    let h = o.headers();
    assert!(
        h.iter().all(|(n, _)| n != "content-disposition"),
        "a name that is no URI drops the header"
    );
}

#[test]
fn missing_object_is_not_found() {
    match evaluate_retrieval(&None, 0) {
        Retrieval::NotFound => (),
        _ => panic!("a missing object maps to not-found"),
    }
}

#[test]
fn expired_object_is_gone() {
    let now = chrono::Utc::now().timestamp();
    let o = object(Some("text/plain"), None, None, Some(&rfc2822(now - 10)), None);
    match evaluate_retrieval(&Some(o), now) {
        Retrieval::Gone => (),
        _ => panic!("an expired object maps to gone"),
    }
}

#[test]
fn live_object_is_served_with_headers() {
    let now = chrono::Utc::now().timestamp();
    let o = object(Some("text/plain"), None, Some(4), Some(&rfc2822(now + 60)), None);
    match evaluate_retrieval(&Some(o), now) {
        Retrieval::Serve(h) => {
            assert_eq!(h[0].1, "text/plain");
            assert_eq!(h[1], ("content-length".to_string(), "4".to_string()));
        },
        _ => panic!("a live object is served"),
    }
}
