use social_hub::platforms::bluesky::{post_url, post_url_for, profile_id, record_key};
use social_hub::platforms::threads::{
    container_request, permalink_request, phase_outcome, publish_request, resolve_permalink,
    resolve_url, PermalinkLookup, Phase, advance, start, Event, Method, QueryRequest, Stage, Step,
};
use social_hub::platforms::x::{request_body, tweet_outcome, tweet_url};
use social_hub::outcome::PostError;

fn pairs(q: &[(String, String)]) -> Vec<(&str, &str)> {
    q.iter().map(|(a, b)| (a.as_str(), b.as_str())).collect()
}

#[test]
fn record_key_is_trailing_segment() {
    assert_eq!(record_key("at://did:plc:abc/app.bsky.feed.post/xyz789").unwrap(), "xyz789");
}

#[test]
fn malformed_record_uri_is_parse_error() {
    for uri in [
        "",
        "garbage",
        "no-slash",
        "ends/",
        "at://did:plc:abc/app.bsky.feed.post/",
        "at://did:plc:abc/app.bsky.feed.post",
        "at:///app.bsky.feed.post/xyz",
        "at://did:plc:abc//xyz",
        "at://did:plc:abc/app.bsky.feed.post/xyz/extra",
        "https://did:plc:abc/app.bsky.feed.post/xyz",
    ] {
        assert!(matches!(record_key(uri), Err(PostError::Parse { .. })), "accepted {:?}", uri);
        assert!(matches!(post_url_for("h", "d", uri), Err(PostError::Parse { .. })), "accepted {:?}", uri);
    }
}

#[test]
fn bluesky_url_ends_in_record_key() {
    let url = post_url_for("alice.bsky.social", "did:plc:abc", "at://did:plc:abc/app.bsky.feed.post/xyz789")
        .unwrap();
    assert_eq!(url, "https://bsky.app/profile/alice.bsky.social/post/xyz789");
    assert_eq!(url.rsplit('/').next(), Some("xyz789"));
}

#[test]
fn bluesky_profile_prefers_handle() {
    assert_eq!(profile_id("alice.bsky.social", "did:plc:abc"), "alice.bsky.social");
    assert_eq!(profile_id("", "did:plc:abc"), "did:plc:abc");
    assert_eq!(post_url("did:plc:abc", "k1"), "https://bsky.app/profile/did:plc:abc/post/k1");
}

#[test]
fn tweet_body_is_json_text_object() {
    assert_eq!(request_body("hello"), "{\"text\":\"hello\"}");
    assert_eq!(request_body("say \"hi\""), "{\"text\":\"say \\\"hi\\\"\"}");
}

#[test]
fn tweet_body_escapes_controls() {
    assert_eq!(request_body("a\nb\tc\\d\u{1}e\u{1f}"), "{\"text\":\"a\\nb\\tc\\\\d\\u0001e\\u001f\"}");
    assert_eq!(request_body("caf\u{e9} \u{7f}"), "{\"text\":\"caf\u{e9} \u{7f}\"}");
}

#[test]
fn tweet_success_gives_status_url() {
    let r = tweet_outcome(201, &"{\"data\":{\"id\":\"1234567890\",\"text\":\"hello\"}}".to_string());
    assert_eq!(r.unwrap(), "https://x.com/i/web/status/1234567890");
    assert_eq!(tweet_url("7"), "https://x.com/i/web/status/7");
}

#[test]
fn tweet_error_status_embeds_body() {
    let body = "{\"title\":\"Forbidden\",\"detail\":\"duplicate content\"}".to_string();
    let e = tweet_outcome(403, &body).unwrap_err();
    assert!(matches!(e, PostError::Api { status: 403, .. }));
    let m = e.message();
    assert!(m.contains(&body));
    assert_eq!(m, format!("X API returned error 403: {}", body));
}

#[test]
fn tweet_without_id_is_parse_error() {
    let e = tweet_outcome(200, &"{\"data\":{}}".to_string()).unwrap_err();
    assert!(matches!(e, PostError::Parse { .. }));
    let e = tweet_outcome(200, &"not json".to_string()).unwrap_err();
    assert!(matches!(e, PostError::Parse { .. }));
}

#[test]
fn threads_requests() {
    let c = container_request("42", "hello", "tok");
    assert_eq!(c.url, "https://graph.threads.net/v1.0/42/threads");
    assert_eq!(pairs(&c.query), vec![("media_type", "TEXT"), ("text", "hello"), ("access_token", "tok")]);
    let p = publish_request("42", "c9", "tok");
    assert_eq!(p.url, "https://graph.threads.net/v1.0/42/threads_publish");
    assert_eq!(pairs(&p.query), vec![("creation_id", "c9"), ("access_token", "tok")]);
    let g = permalink_request("777", "tok");
    assert_eq!(g.url, "https://graph.threads.net/v1.0/777");
    assert_eq!(pairs(&g.query), vec![("fields", "permalink"), ("access_token", "tok")]);
}

#[test]
fn threads_phase_outcomes() {
    assert_eq!(phase_outcome(Phase::CreateContainer, 200, &"{\"id\":\"c9\"}".to_string()).unwrap(), "c9");
    let e = phase_outcome(Phase::Publish, 500, &"oops".to_string()).unwrap_err();
    assert_eq!(e.message(), "Threads API (publishing) returned error 500: oops");
    let e = phase_outcome(Phase::CreateContainer, 200, &"{}".to_string()).unwrap_err();
    assert!(matches!(e, PostError::Parse { .. }));
}

#[test]
fn threads_permalink_failure_gives_placeholder() {
    let url = resolve_permalink("1789", None);
    assert_eq!(url, "Post ID: 1789 (Note: Open Threads app to view)");
    assert!(url.contains("1789"));
    let url = resolve_permalink("1789", Some(&"<html>gateway timeout</html>".to_string()));
    assert_eq!(url, "Post ID: 1789 (Note: Open Threads app to view)");
    assert_eq!(resolve_url("5", PermalinkLookup::Unavailable), "Post ID: 5 (Note: Open Threads app to view)");
}

#[test]
fn threads_permalink_found_or_guessed() {
    let body = "{\"id\":\"1789\",\"permalink\":\"https://www.threads.net/@a/post/Cx\"}".to_string();
    assert_eq!(resolve_permalink("1789", Some(&body)), "https://www.threads.net/@a/post/Cx");
    let body = "{\"id\":\"1789\"}".to_string();
    assert_eq!(
        resolve_permalink("1789", Some(&body)),
        "https://www.threads.com/t/1789 (Note: Open Threads app to view)"
    );
}

fn send_parts(step: Step) -> (Stage, QueryRequest) {
    match step {
        Step::Send { stage, request } => (stage, request),
        Step::Finished(o) => panic!("finished early: {:?}", o),
    }
}

#[test]
fn threads_protocol_runs_three_phases() {
    let (stage, req) = send_parts(start("42", "hello", "tok"));
    assert!(matches!(stage, Stage::CreatingContainer));
    assert_eq!(req.method, Method::Post);
    assert_eq!(req.url, "https://graph.threads.net/v1.0/42/threads");

    let answer = Event::Answered { status: 200, body: "{\"id\":\"c9\"}".to_string() };
    let (stage, req) = send_parts(advance("42", "tok", stage, answer));
    assert!(matches!(stage, Stage::Publishing));
    assert_eq!(req.url, "https://graph.threads.net/v1.0/42/threads_publish");
    assert_eq!(pairs(&req.query), vec![("creation_id", "c9"), ("access_token", "tok")]);

    let answer = Event::Answered { status: 200, body: "{\"id\":\"1789\"}".to_string() };
    let (stage, req) = send_parts(advance("42", "tok", stage, answer));
    match &stage {
        Stage::Resolving { post_id } => assert_eq!(post_id, "1789"),
        other => panic!("unexpected stage {:?}", other),
    }
    assert_eq!(req.method, Method::Get);
    assert_eq!(req.url, "https://graph.threads.net/v1.0/1789");

    let answer = Event::Answered {
        status: 200,
        body: "{\"id\":\"1789\",\"permalink\":\"https://www.threads.net/@a/post/Cx\"}".to_string(),
    };
    match advance("42", "tok", stage, answer) {
        Step::Finished(Ok(url)) => assert_eq!(url, "https://www.threads.net/@a/post/Cx"),
        other => panic!("unexpected step {:?}", other),
    }
}

#[test]
fn threads_lookup_timeout_still_succeeds() {
    let stage = Stage::Resolving { post_id: "1789".to_string() };
    match advance("42", "tok", stage, Event::Failed { detail: "operation timed out".to_string() }) {
        Step::Finished(Ok(url)) => {
            assert_eq!(url, "Post ID: 1789 (Note: Open Threads app to view)");
            assert!(url.contains("1789"));
        }
        other => panic!("unexpected step {:?}", other),
    }
}

#[test]
fn threads_fatal_phase_failures() {
    match advance("42", "tok", Stage::CreatingContainer, Event::Failed { detail: "dns".to_string() }) {
        Step::Finished(Err(e)) => assert_eq!(e.message(), "network error: dns"),
        other => panic!("unexpected step {:?}", other),
    }
    let answer = Event::Answered { status: 400, body: "{\"error\":\"bad token\"}".to_string() };
    match advance("42", "tok", Stage::Publishing, answer) {
        Step::Finished(Err(e)) => {
            assert_eq!(e.message(), "Threads API (publishing) returned error 400: {\"error\":\"bad token\"}")
        }
        other => panic!("unexpected step {:?}", other),
    }
}
