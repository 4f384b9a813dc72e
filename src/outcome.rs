//! Uniform per-platform outcome records and the error taxonomy of the adapters.
use vstd::prelude::*;

verus! {

/// The platforms a message is published to, in the order results are reported.
#[derive(Clone, Copy, Debug, PartialEq, Eq, Structural)]
pub enum Platform {
    Bluesky,
    X,
    Threads,
}

/// Display name of a platform as it appears in a result record.
pub open spec fn platform_name(p: Platform) -> Seq<char> {
    match p {
        Platform::Bluesky => "Bluesky"@,
        Platform::X => "X"@,
        Platform::Threads => "Threads"@,
    }
}

/// The platform tag of the single record reported when nothing could be dispatched.
pub open spec fn all_platforms_tag() -> Seq<char> {
    "All"@
}

impl Platform {
    pub fn name(&self) -> (r: String)
        ensures
            r@ == platform_name(*self),
    {
        match self {
            Platform::Bluesky => String::from_str("Bluesky"),
            Platform::X => String::from_str("X"),
            Platform::Threads => String::from_str("Threads"),
        }
    }
}

/// Decimal digits of a natural number, most significant first.
pub open spec fn decimal(n: nat) -> Seq<char>
    decreases n,
{
    if n < 10 {
        seq!["0123456789"@[n as int]]
    } else {
        decimal(n / 10).push("0123456789"@[(n % 10) as int])
    }
}

fn digit(d: u16) -> (r: String)
    requires
        d < 10,
    ensures
        r@ == seq!["0123456789"@[d as int]],
{
    proof {
        reveal_strlit("0123456789");
    }
    let s = "0123456789".substring_char(d as usize, d as usize + 1);
    let r = String::from_str(s);
    assert(r@ =~= seq!["0123456789"@[d as int]]);
    r
}

/// Writes a status code in decimal.
pub fn decimal_string(n: u16) -> (r: String)
    ensures
        r@ == decimal(n as nat),
{
    let mut acc = digit(n % 10);
    let mut m: u16 = n / 10;
    proof {
        if n >= 10 {
            assert(decimal(n as nat) =~= decimal(m as nat) + acc@);
        }
    }
    while m > 0
        invariant
            decimal(n as nat) == (if m > 0 { decimal(m as nat) } else { Seq::<char>::empty() }) + acc@,
        decreases m,
    {
        let d = digit(m % 10);
        proof {
            if m >= 10 {
                assert(decimal(m as nat) + acc@ =~= decimal((m / 10) as nat) + (d@ + acc@));
            } else {
                assert(decimal(m as nat) + acc@ =~= Seq::<char>::empty() + (d@ + acc@));
            }
        }
        acc = d.concat(acc.as_str());
        m = m / 10;
    }
    assert(acc@ =~= decimal(n as nat));
    acc
}

/// Why a publish attempt on one platform failed.
#[derive(Clone, Debug)]
pub enum PostError {
    /// The platform rejected the identity or its secret.
    Authentication { detail: String },
    /// The transport failed: name resolution, connection or timeout.
    Network { detail: String },
    /// The platform answered with a non-success status.
    Api { context: String, status: u16, body: String },
    /// The response did not have the expected shape.
    Parse { detail: String },
}

/// The human-readable message carried by a failed result.
pub open spec fn error_message(e: PostError) -> Seq<char> {
    match e {
        PostError::Authentication { detail } => "authentication failed: "@ + detail@,
        PostError::Network { detail } => "network error: "@ + detail@,
        PostError::Api { context, status, body } => context@ + " returned error "@ + decimal(
            status as nat,
        ) + ": "@ + body@,
        PostError::Parse { detail } => "unexpected response: "@ + detail@,
    }
}

/// `t` occurs in `s` as a contiguous run.
pub open spec fn contains(s: Seq<char>, t: Seq<char>) -> bool {
    exists|i: int| 0 <= i <= s.len() - t.len() && #[trigger] s.subrange(i, i + t.len()) == t
}

impl PostError {
    pub fn message(&self) -> (r: String)
        ensures
            r@ == error_message(*self),
    {
        match self {
            PostError::Authentication { detail } => String::from_str("authentication failed: ").concat(
                detail.as_str(),
            ),
            PostError::Network { detail } => String::from_str("network error: ").concat(
                detail.as_str(),
            ),
            PostError::Api { context, status, body } => {
                let code = decimal_string(*status);
                context.clone().concat(" returned error ").concat(code.as_str()).concat(
                    ": ",
                ).concat(body.as_str())
            },
            PostError::Parse { detail } => String::from_str("unexpected response: ").concat(
                detail.as_str(),
            ),
        }
    }
}

/// A non-success answer's body always appears in the message it produces.
pub proof fn lemma_api_message_contains_body(context: String, status: u16, body: String)
    ensures
        contains(error_message(PostError::Api { context, status, body }), body@),
{
    let m = error_message(PostError::Api { context, status, body });
    let prefix = context@ + " returned error "@ + decimal(status as nat) + ": "@;
    assert(m == prefix + body@);
    assert(m.subrange(prefix.len() as int, prefix.len() + body@.len() as int) =~= body@);
}

/// The outcome of one platform, in the shape handed back to callers.
#[derive(Clone, Debug)]
pub struct PostResult {
    pub platform: String,
    pub success: bool,
    pub url: Option<String>,
    pub error: Option<String>,
}

pub open spec fn opt_view(o: Option<String>) -> Option<Seq<char>> {
    match o {
        Some(s) => Some(s@),
        None => None,
    }
}

/// A result record with its strings seen as character sequences.
pub struct PostResultView {
    pub platform: Seq<char>,
    pub success: bool,
    pub url: Option<Seq<char>>,
    pub error: Option<Seq<char>>,
}

impl View for PostResult {
    type V = PostResultView;

    open spec fn view(&self) -> PostResultView {
        PostResultView {
            platform: self.platform@,
            success: self.success,
            url: opt_view(self.url),
            error: opt_view(self.error),
        }
    }
}

/// Exactly one of `url` and `error` is present, as `success` says.
pub open spec fn result_well_formed(r: PostResultView) -> bool {
    if r.success {
        r.url is Some && r.error is None
    } else {
        r.url is None && r.error is Some
    }
}

/// The record for a platform that published at `url`.
pub open spec fn success_view(tag: Seq<char>, url: Seq<char>) -> PostResultView {
    PostResultView { platform: tag, success: true, url: Some(url), error: None }
}

/// The record for a platform that failed with `message`.
pub open spec fn failure_view(tag: Seq<char>, message: Seq<char>) -> PostResultView {
    PostResultView { platform: tag, success: false, url: None, error: Some(message) }
}

/// The record an adapter's outcome is turned into.
pub open spec fn outcome_view(p: Platform, outcome: Result<String, PostError>) -> PostResultView {
    match outcome {
        Ok(url) => success_view(platform_name(p), url@),
        Err(e) => failure_view(platform_name(p), error_message(e)),
    }
}

/// What an adapter returned, as a URL or an error message.
pub open spec fn adapter_result_view(r: Result<String, PostError>) -> Result<Seq<char>, Seq<char>> {
    match r {
        Ok(u) => Ok(u@),
        Err(e) => Err(error_message(e)),
    }
}

/// Message of the record that stands for a task that ended abnormally.
pub open spec fn aborted_message() -> Seq<char> {
    "Task did not complete"@
}

impl PostResult {
    pub fn succeeded(platform: Platform, url: String) -> (r: PostResult)
        ensures
            r@ == success_view(platform_name(platform), url@),
    {
        PostResult { platform: platform.name(), success: true, url: Some(url), error: None }
    }

    pub fn failed(platform: Platform, message: String) -> (r: PostResult)
        ensures
            r@ == failure_view(platform_name(platform), message@),
    {
        PostResult { platform: platform.name(), success: false, url: None, error: Some(message) }
    }

    /// Turns what an adapter returned into a record tagged with its platform.
    pub fn from_outcome(platform: Platform, outcome: Result<String, PostError>) -> (r: PostResult)
        ensures
            r@ == outcome_view(platform, outcome),
            result_well_formed(r@),
    {
        match outcome {
            Ok(url) => PostResult::succeeded(platform, url),
            Err(e) => PostResult::failed(platform, e.message()),
        }
    }

    /// The record for a platform whose task ended without an outcome.
    pub fn aborted(platform: Platform) -> (r: PostResult)
        ensures
            r@ == failure_view(platform_name(platform), aborted_message()),
            result_well_formed(r@),
    {
        PostResult::failed(platform, String::from_str("Task did not complete"))
    }
}

} // verus!
