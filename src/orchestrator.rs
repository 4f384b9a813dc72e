//! Decisions of the publish commands: which adapter runs with which secrets,
//! and how the outcomes of a fan-out are joined into ordered records.
use vstd::prelude::*;
use crate::credentials::{CredentialError, PlatformCredentials};
use crate::outcome::{
    PostError,
    PostResult,
    PostResultView,
    Platform,
    all_platforms_tag,
    failure_view,
    outcome_view,
    aborted_message,
    platform_name,
    result_well_formed,
};

verus! {

/// One adapter call, with its own copy of the message and of its platform's secrets.
#[derive(Clone, Debug)]
pub enum PostJob {
    Bluesky { message: String, identifier: String, app_password: String },
    X {
        message: String,
        consumer_key: String,
        consumer_secret: String,
        access_token: String,
        access_token_secret: String,
    },
    Threads { message: String, user_id: String, access_token: String },
}

/// `j` calls platform `p`'s adapter on `message` with `c`'s secrets for it.
pub open spec fn job_matches(j: PostJob, p: Platform, message: Seq<char>, c: PlatformCredentials) -> bool {
    match j {
        PostJob::Bluesky { message: m, identifier, app_password } => p == Platform::Bluesky
            && m@ == message && identifier@ == c.bluesky_identifier@ && app_password@
            == c.bluesky_app_password@,
        PostJob::X { message: m, consumer_key, consumer_secret, access_token, access_token_secret } =>
            p == Platform::X && m@ == message && consumer_key@ == c.x_consumer_key@
                && consumer_secret@ == c.x_consumer_secret@ && access_token@ == c.x_access_token@
                && access_token_secret@ == c.x_access_token_secret@,
        PostJob::Threads { message: m, user_id, access_token } => p == Platform::Threads && m@
            == message && user_id@ == c.threads_user_id@ && access_token@ == c.threads_access_token@,
    }
}

pub open spec fn job_platform(j: PostJob) -> Platform {
    match j {
        PostJob::Bluesky { .. } => Platform::Bluesky,
        PostJob::X { .. } => Platform::X,
        PostJob::Threads { .. } => Platform::Threads,
    }
}

impl PostJob {
    pub fn platform(&self) -> (r: Platform)
        ensures
            r == job_platform(*self),
    {
        match self {
            PostJob::Bluesky { .. } => Platform::Bluesky,
            PostJob::X { .. } => Platform::X,
            PostJob::Threads { .. } => Platform::Threads,
        }
    }
}

/// The adapter call for `platform`, from the message and the loaded bundle.
pub fn job_for(platform: Platform, message: &String, creds: &PlatformCredentials) -> (r: PostJob)
    ensures
        job_matches(r, platform, message@, *creds),
{
    match platform {
        Platform::Bluesky => PostJob::Bluesky {
            message: message.clone(),
            identifier: creds.bluesky_identifier.clone(),
            app_password: creds.bluesky_app_password.clone(),
        },
        Platform::X => PostJob::X {
            message: message.clone(),
            consumer_key: creds.x_consumer_key.clone(),
            consumer_secret: creds.x_consumer_secret.clone(),
            access_token: creds.x_access_token.clone(),
            access_token_secret: creds.x_access_token_secret.clone(),
        },
        Platform::Threads => PostJob::Threads {
            message: message.clone(),
            user_id: creds.threads_user_id.clone(),
            access_token: creds.threads_access_token.clone(),
        },
    }
}

/// A single-platform command: the adapter call to make, or the load failure
/// that ends the command before any network call.
pub fn plan_single(
    platform: Platform,
    message: &String,
    loaded: Result<PlatformCredentials, CredentialError>,
) -> (r: Result<PostJob, String>)
    ensures
        loaded is Err <==> r is Err,
        loaded matches Err(e) ==> r matches Err(m) && m@ == "credential "@ + e.key@ + ": "@
            + e.detail@,
        loaded matches Ok(c) ==> r matches Ok(j) && job_matches(j, platform, message@, c),
{
    match loaded {
        Ok(c) => Ok(job_for(platform, message, &c)),
        Err(e) => Err(e.message()),
    }
}

/// Platform of the `i`-th record of a fan-out.
pub open spec fn platform_at(i: int) -> Platform {
    if i == 0 {
        Platform::Bluesky
    } else if i == 1 {
        Platform::X
    } else {
        Platform::Threads
    }
}

/// What the all-platforms command does after loading the bundle.
#[derive(Debug)]
pub enum AllPlan {
    /// Nothing is dispatched; these records are the answer.
    Report(Vec<PostResult>),
    /// One concurrent task per job, in the order of `platform_at`.
    Dispatch(Vec<PostJob>),
}

/// Message of the one record reported when the bundle cannot be loaded.
pub open spec fn load_failure_message(e: CredentialError) -> Seq<char> {
    "Failed to load credentials: "@ + "credential "@ + e.key@ + ": "@ + e.detail@
}

/// The all-platforms command: one job per platform from the same bundle, or,
/// when the bundle cannot be loaded, a single failed record tagged "All".
pub fn plan_all(message: &String, loaded: Result<PlatformCredentials, CredentialError>) -> (r: AllPlan)
    ensures
        loaded matches Err(e) ==> r matches AllPlan::Report(rs) && rs@.len() == 1 && rs@[0]@
            == failure_view(all_platforms_tag(), load_failure_message(e)),
        loaded matches Ok(c) ==> r matches AllPlan::Dispatch(jobs) && jobs@.len() == 3 && forall|
            i: int,
        |
            0 <= i < 3 ==> job_matches(#[trigger] jobs@[i], platform_at(i), message@, c),
{
    match loaded {
        Ok(c) => {
            let jobs = vec![
                job_for(Platform::Bluesky, message, &c),
                job_for(Platform::X, message, &c),
                job_for(Platform::Threads, message, &c),
            ];
            AllPlan::Dispatch(jobs)
        },
        Err(e) => {
            let text = String::from_str("Failed to load credentials: ").concat(e.message().as_str());
            proof {
                assert(text@ =~= load_failure_message(e));
            }
            let record = PostResult {
                platform: String::from_str("All"),
                success: false,
                url: None,
                error: Some(text),
            };
            AllPlan::Report(vec![record])
        },
    }
}

/// How a dispatched task ended.
#[derive(Debug)]
pub enum TaskOutcome {
    /// The adapter returned.
    Finished(Result<String, PostError>),
    /// The task ended abnormally before its adapter returned.
    Aborted,
}

/// The record a task's ending is turned into.
pub open spec fn task_view(p: Platform, o: TaskOutcome) -> PostResultView {
    match o {
        TaskOutcome::Finished(outcome) => outcome_view(p, outcome),
        TaskOutcome::Aborted => failure_view(platform_name(p), aborted_message()),
    }
}

/// The records of a fan-out, one per platform in fixed order, from its tasks' endings.
pub open spec fn joined_view(outcomes: Seq<TaskOutcome>) -> Seq<PostResultView> {
    Seq::new(3, |i: int| task_view(platform_at(i), outcomes[i]))
}

/// The record of one task, tagged with its platform.
pub fn task_result(platform: Platform, outcome: TaskOutcome) -> (r: PostResult)
    ensures
        r@ == task_view(platform, outcome),
        result_well_formed(r@),
{
    match outcome {
        TaskOutcome::Finished(o) => PostResult::from_outcome(platform, o),
        TaskOutcome::Aborted => PostResult::aborted(platform),
    }
}

/// Joins the endings of the three tasks, in the order they were dispatched,
/// into three records whatever their completion order or success.
pub fn join_all(outcomes: Vec<TaskOutcome>) -> (r: Vec<PostResult>)
    requires
        outcomes@.len() == 3,
    ensures
        r@.len() == 3,
        forall|i: int| 0 <= i < 3 ==> (#[trigger] r@[i])@ == joined_view(outcomes@)[i],
        forall|i: int| 0 <= i < 3 ==> result_well_formed((#[trigger] r@[i])@),
        forall|i: int| 0 <= i < 3 ==> (#[trigger] r@[i]).platform@ == platform_name(platform_at(i)),
{
    let ghost given = outcomes@;
    let mut outcomes = outcomes;
    let threads = task_result(Platform::Threads, outcomes.pop().unwrap());
    let x = task_result(Platform::X, outcomes.pop().unwrap());
    let bluesky = task_result(Platform::Bluesky, outcomes.pop().unwrap());
    let r = vec![bluesky, x, threads];
    assert(forall|i: int| 0 <= i < 3 ==> (#[trigger] r@[i])@ == joined_view(given)[i]);
    r
}

/// A fan-out always yields one record per platform, in the fixed order, and
/// each record is either a success with a URL or a failure with a message.
pub proof fn lemma_fan_out_shape(outcomes: Seq<TaskOutcome>)
    requires
        outcomes.len() == 3,
    ensures
        joined_view(outcomes).len() == 3,
        joined_view(outcomes)[0].platform == "Bluesky"@,
        joined_view(outcomes)[1].platform == "X"@,
        joined_view(outcomes)[2].platform == "Threads"@,
        forall|i: int| 0 <= i < 3 ==> result_well_formed(#[trigger] joined_view(outcomes)[i]),
{
    assert forall|i: int| 0 <= i < 3 implies result_well_formed(#[trigger] joined_view(outcomes)[i]) by {
        match outcomes[i] {
            TaskOutcome::Finished(o) => {
                match o {
                    Ok(_) => {},
                    Err(_) => {},
                }
            },
            TaskOutcome::Aborted => {},
        }
    }
}

/// Task isolation: one task ending abnormally changes no other platform's record.
pub proof fn lemma_abort_is_isolated(outcomes: Seq<TaskOutcome>, k: int)
    requires
        outcomes.len() == 3,
        0 <= k < 3,
    ensures
        forall|i: int|
            0 <= i < 3 && i != k ==> #[trigger] joined_view(outcomes.update(k, TaskOutcome::Aborted))[i]
                == joined_view(outcomes)[i],
        joined_view(outcomes.update(k, TaskOutcome::Aborted))[k].success == false,
{
}

} // verus!
