use panca::runner::{
    classify_response, decode_response_body, exponent_stays_in_range, DisplayLoop,
    DisplayStep, ResponseBody, ResponseOutcome, ResponseStep, WorkerProgress,
};

#[test]
fn classify_statuses() {
    assert_eq!(classify_response(Some(200)), ResponseOutcome::Success);
    assert_eq!(classify_response(Some(404)), ResponseOutcome::Success);
    assert_eq!(classify_response(Some(499)), ResponseOutcome::Success);
    assert_eq!(classify_response(Some(500)), ResponseOutcome::Failure);
    assert_eq!(classify_response(Some(599)), ResponseOutcome::Failure);
    assert_eq!(classify_response(Some(600)), ResponseOutcome::Success);
    assert_eq!(classify_response(None), ResponseOutcome::Failure);
}

#[test]
fn worker_limited_reports_done_at_last_request() {
    let mut w = WorkerProgress::new(Some(3));
    assert_eq!(w.on_response(10, 100), ResponseStep { snapshot: false, done: false });
    assert_eq!(w.on_response(200, 100), ResponseStep { snapshot: true, done: false });
    assert_eq!(w.on_response(0, 100), ResponseStep { snapshot: true, done: true });
    assert_eq!(w.requests_sent(), 3);
}

#[test]
fn worker_interval_must_be_exceeded() {
    let mut w = WorkerProgress::new(None);
    assert_eq!(w.on_response(100, 100), ResponseStep { snapshot: false, done: false });
    assert_eq!(w.on_response(101, 100), ResponseStep { snapshot: true, done: false });
}

#[test]
fn worker_unlimited_never_done() {
    let mut w = WorkerProgress::new(None);
    for _ in 0..1000 {
        assert!(!w.on_response(0, 1).done);
    }
    assert_eq!(w.requests_sent(), 1000);
}

#[test]
fn display_numbers_snapshots_and_stops() {
    let mut d = DisplayLoop::new();
    assert_eq!(d.next_snapshot(), 1);
    assert_eq!(d.after_snapshot(0, 2), DisplayStep::Sleep);
    assert_eq!(d.next_snapshot(), 2);
    assert_eq!(d.after_snapshot(2, 2), DisplayStep::Finish);
    assert_eq!(d.next_snapshot(), 3);
    assert_eq!(d.snapshots_shown(), 3);
}

#[test]
fn decode_body_json() {
    let body = br#"{"usage": {"prompt_tokens": 18, "completion_tokens": 57}}"#;
    match decode_response_body(Some(&body[..])) {
        ResponseBody::Json(text, doc) => {
            assert_eq!(text.len(), body.len());
            assert_eq!(doc["usage"]["prompt_tokens"].as_u64(), Some(18));
        }
        _ => panic!("expected a JSON document"),
    }
}

#[test]
fn decode_body_rejects() {
    assert!(matches!(decode_response_body(None), ResponseBody::NotJson));
    assert!(matches!(decode_response_body(Some(&[0xff, 0xfe][..])), ResponseBody::NotJson));
    assert!(matches!(decode_response_body(Some(&b"not json"[..])), ResponseBody::NotJson));
    assert!(matches!(decode_response_body(Some(&b""[..])), ResponseBody::NotJson));
}

#[test]
fn decode_body_long_fraction() {
    let at_limit = format!("0.{}", "0".repeat(32768));
    assert!(matches!(
        decode_response_body(Some(at_limit.as_bytes())),
        ResponseBody::Json(_, _)
    ));
    let over_limit = format!("0.{}", "0".repeat(32769));
    assert!(matches!(
        decode_response_body(Some(over_limit.as_bytes())),
        ResponseBody::FractionTooLong
    ));
}

#[test]
fn decode_body_long_fraction_exact_limit() {
    // 32759 zeros and 9 more digits: 32768 exponent steps, which the parser takes.
    let at_limit = format!("0.{}123456789", "0".repeat(32759));
    assert!(matches!(
        decode_response_body(Some(at_limit.as_bytes())),
        ResponseBody::Json(_, _)
    ));
    let over_limit = format!("0.{}123456789", "0".repeat(32760));
    assert!(matches!(
        decode_response_body(Some(over_limit.as_bytes())),
        ResponseBody::FractionTooLong
    ));
    let negative = format!("-0.{}", "0".repeat(32769));
    assert!(matches!(
        decode_response_body(Some(negative.as_bytes())),
        ResponseBody::FractionTooLong
    ));
}

#[test]
fn decode_body_long_digit_runs_read() {
    let in_string = format!(r#"{{"s":"1.{}"}}"#, "0".repeat(40000));
    assert!(matches!(
        decode_response_body(Some(in_string.as_bytes())),
        ResponseBody::Json(_, _)
    ));
    let escaped_quote = format!(r#"{{"s":"a\"0.{}"}}"#, "0".repeat(40000));
    assert!(matches!(
        decode_response_body(Some(escaped_quote.as_bytes())),
        ResponseBody::Json(_, _)
    ));
    let saturated = format!("[1.{}]", "0".repeat(40000));
    assert!(matches!(
        decode_response_body(Some(saturated.as_bytes())),
        ResponseBody::Json(_, _)
    ));
    let zero_then_digits = format!("0.5{}", "0".repeat(40000));
    assert!(matches!(
        decode_response_body(Some(zero_then_digits.as_bytes())),
        ResponseBody::Json(_, _)
    ));
}

#[test]
fn exponent_range_scan() {
    assert!(exponent_stays_in_range("1.5"));
    assert!(exponent_stays_in_range(""));
    assert!(exponent_stays_in_range(&"9".repeat(40000)));
    assert!(exponent_stays_in_range(&format!("[10.{}]", "0".repeat(40000))));
    assert!(exponent_stays_in_range(&format!(r#"["0.{}"]"#, "0".repeat(40000))));
    assert!(!exponent_stays_in_range(&format!("[1, 0.{}]", "0".repeat(32769))));
    assert!(!exponent_stays_in_range(&format!(r#"{{"a": 0.{}}}"#, "0".repeat(32769))));
    assert!(!exponent_stays_in_range(&format!(r#"["a\\", 0.{}]"#, "0".repeat(32769))));
    assert!(exponent_stays_in_range(&format!(r#"["a\", 0.{}]"#, "0".repeat(32769))));
}
