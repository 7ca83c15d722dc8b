use panca::metrics::basic::{self, BasicCounters, BasicTotals};
use panca::metrics::llamacpp::{self, token_usage, LlamaCppCounters, TokenUsage};
use panca::metrics::utils::ConfidenceLevel;

#[test]
fn basic_success_and_error_counts() {
    let mut c = BasicCounters::new();
    c.on_success_response();
    c.on_success_response();
    c.on_error_response();
    assert_eq!(c.n_requests(), 2);
    assert_eq!(c.n_successes(), 2);
    assert_eq!(c.n_failures(), 1);
    assert_eq!(c.total_requests(), 3);
}

#[test]
fn basic_snapshot_resets_window_only() {
    let mut c = BasicCounters::new();
    c.on_success_response();
    c.on_success_response();
    c.on_success_response();
    assert_eq!(c.on_snapshot(), 3);
    assert_eq!(c.n_requests(), 0);
    assert_eq!(c.n_successes(), 3);
    c.on_success_response();
    c.on_error_response();
    assert_eq!(c.on_snapshot(), 1);
    assert_eq!(c.on_snapshot(), 0);
    assert_eq!(c.total_requests(), 5);
}

#[test]
fn basic_aggregate_sums_threads() {
    let mut a = BasicCounters::new();
    a.on_success_response();
    a.on_error_response();
    let mut b = BasicCounters::new();
    b.on_success_response();
    b.on_success_response();
    let t = basic::aggregate(&vec![a, b]).unwrap();
    assert_eq!(t, BasicTotals { n_successes: 3, n_failures: 1 });
    let empty = basic::aggregate(&Vec::new()).unwrap();
    assert_eq!(empty, BasicTotals { n_successes: 0, n_failures: 0 });
}

#[test]
fn llamacpp_records_usage() {
    let mut c = LlamaCppCounters::new();
    c.on_success_response(Some(TokenUsage { prompt_tokens: 18, completion_tokens: 57 }));
    c.on_success_response(Some(TokenUsage { prompt_tokens: 18, completion_tokens: 14 }));
    assert_eq!(c.n_successes(), 2);
    assert_eq!(c.n_prompt_tokens(), 36);
    assert_eq!(c.n_completion_tokens(), 71);
    assert_eq!(c.n_total_tokens(), 107);
}

#[test]
fn llamacpp_without_json_unchanged() {
    let mut c = LlamaCppCounters::new();
    c.on_success_response(None);
    assert_eq!(c.n_successes(), 0);
    assert_eq!(c.n_total_tokens(), 0);
}

#[test]
fn llamacpp_fits_detects_overflow() {
    let c = LlamaCppCounters::new();
    assert!(c.fits(TokenUsage { prompt_tokens: 1, completion_tokens: 2 }));
    assert!(!c.fits(TokenUsage { prompt_tokens: u64::MAX, completion_tokens: 1 }));
    assert!(c.fits(TokenUsage { prompt_tokens: u64::MAX, completion_tokens: 0 }));
}

#[test]
fn llamacpp_aggregate_sums_threads() {
    let mut a = LlamaCppCounters::new();
    a.on_success_response(Some(TokenUsage { prompt_tokens: 72, completion_tokens: 228 }));
    let mut b = LlamaCppCounters::new();
    b.on_success_response(Some(TokenUsage { prompt_tokens: 72, completion_tokens: 143 }));
    let g = llamacpp::aggregate(&vec![a, b]).unwrap();
    assert_eq!(g.n_successes(), 2);
    assert_eq!(g.n_prompt_tokens(), 144);
    assert_eq!(g.n_completion_tokens(), 371);
    assert_eq!(g.n_total_tokens(), 515);
}

#[test]
fn llamacpp_aggregate_overflow_is_none() {
    let mut a = LlamaCppCounters::new();
    a.on_success_response(Some(TokenUsage { prompt_tokens: u64::MAX, completion_tokens: 0 }));
    let mut b = LlamaCppCounters::new();
    b.on_success_response(Some(TokenUsage { prompt_tokens: 1, completion_tokens: 0 }));
    assert!(llamacpp::aggregate(&vec![a, b]).is_none());
}

#[test]
fn confidence_zscores() {
    assert_eq!(ConfidenceLevel::P95.zscore_hundredths(), 196);
    assert_eq!(ConfidenceLevel::P99.zscore_hundredths(), 258);
}

#[test]
fn llamacpp_token_usage_from_text() {
    let text = r#"{"usage": {"prompt_tokens": 18, "completion_tokens": 57, "total_tokens": 75}, "timings": {"prompt_per_second": 96.1}}"#;
    assert_eq!(
        token_usage(text),
        Some(TokenUsage { prompt_tokens: 18, completion_tokens: 57 })
    );
}

#[test]
fn llamacpp_token_usage_missing_or_wrong() {
    assert_eq!(token_usage(r#"{"usage": {"prompt_tokens": 18}}"#), None);
    assert_eq!(token_usage(r#"{"prompt_tokens": 18, "completion_tokens": 5}"#), None);
    assert_eq!(token_usage(r#"{"usage": {"prompt_tokens": -1, "completion_tokens": 5}}"#), None);
    assert_eq!(token_usage(r#"{"usage": {"prompt_tokens": "3", "completion_tokens": 5}}"#), None);
    assert_eq!(token_usage("not json"), None);
}

#[test]
fn llamacpp_token_usage_with_long_string() {
    let text = format!(
        r#"{{"note": "0.{}", "usage": {{"prompt_tokens": 3, "completion_tokens": 4}}}}"#,
        "0".repeat(40000)
    );
    assert_eq!(
        token_usage(&text),
        Some(TokenUsage { prompt_tokens: 3, completion_tokens: 4 })
    );
}
