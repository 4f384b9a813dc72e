use social_hub::outcome::{decimal_string, Platform, PostError, PostResult};

#[test]
fn platform_names() {
    assert_eq!(Platform::Bluesky.name(), "Bluesky");
    assert_eq!(Platform::X.name(), "X");
    assert_eq!(Platform::Threads.name(), "Threads");
}

#[test]
fn decimal_of_status_codes() {
    assert_eq!(decimal_string(0), "0");
    assert_eq!(decimal_string(7), "7");
    assert_eq!(decimal_string(404), "404");
    assert_eq!(decimal_string(65535), "65535");
}

#[test]
fn error_messages_per_variant() {
    let auth = PostError::Authentication { detail: "bad password".to_string() };
    assert_eq!(auth.message(), "authentication failed: bad password");
    let net = PostError::Network { detail: "dns".to_string() };
    assert_eq!(net.message(), "network error: dns");
    let api = PostError::Api { context: "X API".to_string(), status: 401, body: "nope".to_string() };
    assert_eq!(api.message(), "X API returned error 401: nope");
    let parse = PostError::Parse { detail: "no id".to_string() };
    assert_eq!(parse.message(), "unexpected response: no id");
}

#[test]
fn result_from_success_and_failure() {
    let ok = PostResult::from_outcome(Platform::X, Ok("https://x.com/i/web/status/1".to_string()));
    assert_eq!(ok.platform, "X");
    assert!(ok.success);
    assert_eq!(ok.url.as_deref(), Some("https://x.com/i/web/status/1"));
    assert!(ok.error.is_none());

    let bad = PostResult::from_outcome(
        Platform::Threads,
        Err(PostError::Network { detail: "timeout".to_string() }),
    );
    assert_eq!(bad.platform, "Threads");
    assert!(!bad.success);
    assert!(bad.url.is_none());
    assert_eq!(bad.error.as_deref(), Some("network error: timeout"));
}

#[test]
fn aborted_task_record() {
    let r = PostResult::aborted(Platform::Bluesky);
    assert_eq!(r.platform, "Bluesky");
    assert!(!r.success);
    assert!(r.url.is_none());
    assert_eq!(r.error.as_deref(), Some("Task did not complete"));
}
