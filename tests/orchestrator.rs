use social_hub::credentials::{CredentialError, PlatformCredentials};
use social_hub::orchestrator::{join_all, plan_all, plan_single, AllPlan, PostJob, TaskOutcome};
use social_hub::outcome::{Platform, PostError};

fn creds() -> PlatformCredentials {
    PlatformCredentials {
        bluesky_identifier: "alice.bsky.social".to_string(),
        bluesky_app_password: "app-pw".to_string(),
        x_consumer_key: "ck".to_string(),
        x_consumer_secret: "cs".to_string(),
        x_access_token: "at".to_string(),
        x_access_token_secret: "ats".to_string(),
        threads_user_id: "42".to_string(),
        threads_access_token: "tt".to_string(),
    }
}

fn missing() -> CredentialError {
    CredentialError { key: "bluesky_identifier".to_string(), detail: "NoEntry".to_string() }
}

#[test]
fn single_command_without_credentials_makes_no_call() {
    for p in [Platform::Bluesky, Platform::X, Platform::Threads] {
        let r = plan_single(p, &"hello".to_string(), Err(missing()));
        assert_eq!(r.unwrap_err(), "credential bluesky_identifier: NoEntry");
    }
}

#[test]
fn single_command_gets_its_platform_secrets() {
    match plan_single(Platform::X, &"hi".to_string(), Ok(creds())).unwrap() {
        PostJob::X { message, consumer_key, consumer_secret, access_token, access_token_secret } => {
            assert_eq!(message, "hi");
            assert_eq!(consumer_key, "ck");
            assert_eq!(consumer_secret, "cs");
            assert_eq!(access_token, "at");
            assert_eq!(access_token_secret, "ats");
        }
        other => panic!("unexpected job {:?}", other),
    }
    let job = plan_single(Platform::Threads, &"hi".to_string(), Ok(creds())).unwrap();
    assert_eq!(job.platform(), Platform::Threads);
}

#[test]
fn all_command_with_load_failure_reports_one_record() {
    match plan_all(&"hello".to_string(), Err(missing())) {
        AllPlan::Report(rs) => {
            assert_eq!(rs.len(), 1);
            assert_eq!(rs[0].platform, "All");
            assert!(!rs[0].success);
            assert!(rs[0].url.is_none());
            assert_eq!(
                rs[0].error.as_deref(),
                Some("Failed to load credentials: credential bluesky_identifier: NoEntry")
            );
        }
        AllPlan::Dispatch(_) => panic!("nothing should be dispatched"),
    }
}

#[test]
fn all_command_dispatches_three_jobs_in_order() {
    match plan_all(&"hello".to_string(), Ok(creds())) {
        AllPlan::Dispatch(jobs) => {
            let platforms: Vec<Platform> = jobs.iter().map(|j| j.platform()).collect();
            assert_eq!(platforms, vec![Platform::Bluesky, Platform::X, Platform::Threads]);
            match &jobs[0] {
                PostJob::Bluesky { message, identifier, app_password } => {
                    assert_eq!(message, "hello");
                    assert_eq!(identifier, "alice.bsky.social");
                    assert_eq!(app_password, "app-pw");
                }
                other => panic!("unexpected job {:?}", other),
            }
            match &jobs[2] {
                PostJob::Threads { message, user_id, access_token } => {
                    assert_eq!(message, "hello");
                    assert_eq!(user_id, "42");
                    assert_eq!(access_token, "tt");
                }
                other => panic!("unexpected job {:?}", other),
            }
        }
        AllPlan::Report(_) => panic!("credentials were loaded"),
    }
}

#[test]
fn join_keeps_platform_order_whatever_succeeds() {
    let rs = join_all(vec![
        TaskOutcome::Finished(Err(PostError::Authentication { detail: "bad".to_string() })),
        TaskOutcome::Finished(Ok("https://x.com/i/web/status/9".to_string())),
        TaskOutcome::Finished(Ok("https://www.threads.net/@a/post/1".to_string())),
    ]);
    assert_eq!(rs.len(), 3);
    assert_eq!(rs[0].platform, "Bluesky");
    assert_eq!(rs[1].platform, "X");
    assert_eq!(rs[2].platform, "Threads");
    assert!(!rs[0].success);
    assert!(rs[1].success);
    assert!(rs[2].success);
}

#[test]
fn aborted_task_leaves_siblings_unchanged() {
    let rs = join_all(vec![
        TaskOutcome::Finished(Ok("https://bsky.app/profile/a/post/b".to_string())),
        TaskOutcome::Aborted,
        TaskOutcome::Finished(Ok("Post ID: 5 (Note: Open Threads app to view)".to_string())),
    ]);
    assert_eq!(rs.len(), 3);
    assert!(rs[0].success);
    assert_eq!(rs[0].url.as_deref(), Some("https://bsky.app/profile/a/post/b"));
    assert!(!rs[1].success);
    assert_eq!(rs[1].platform, "X");
    assert_eq!(rs[1].error.as_deref(), Some("Task did not complete"));
    assert!(rs[2].success);
}
