//! Container-publish service: the three requests, what each answer means, and
//! the placeholder that stands in when the permalink cannot be resolved.
use vstd::prelude::*;
use crate::json::{json_string_at, string_at};
use crate::outcome::{PostError, adapter_result_view, contains, decimal, error_message};
use crate::platforms::x::is_success;

verus! {

/// Base of every endpoint of the service.
pub const GRAPH_API: &'static str = "https://graph.threads.net/v1.0/";

/// How a request is sent.
#[derive(Clone, Copy, Debug, PartialEq, Eq, Structural)]
pub enum Method {
    Get,
    Post,
}

/// A request: its method, an endpoint and its query parameters, in order.
#[derive(Clone, Debug)]
pub struct QueryRequest {
    pub method: Method,
    pub url: String,
    pub query: Vec<(String, String)>,
}

pub open spec fn pair_view(p: (String, String)) -> (Seq<char>, Seq<char>) {
    (p.0@, p.1@)
}

pub open spec fn query_view(q: Seq<(String, String)>) -> Seq<(Seq<char>, Seq<char>)> {
    q.map_values(|p: (String, String)| pair_view(p))
}

/// A request seen as its method, endpoint and parameters.
pub open spec fn request_view(r: QueryRequest) -> (Method, Seq<char>, Seq<(Seq<char>, Seq<char>)>) {
    (r.method, r.url@, query_view(r.query@))
}

pub open spec fn container_request_view(user_id: Seq<char>, message: Seq<char>, access_token: Seq<char>) -> (Method, Seq<char>, Seq<(Seq<char>, Seq<char>)>) {
    (
        Method::Post,
        "https://graph.threads.net/v1.0/"@ + user_id + "/threads"@,
        seq![("media_type"@, "TEXT"@), ("text"@, message), ("access_token"@, access_token)],
    )
}

pub open spec fn publish_request_view(user_id: Seq<char>, creation_id: Seq<char>, access_token: Seq<char>) -> (Method, Seq<char>, Seq<(Seq<char>, Seq<char>)>) {
    (
        Method::Post,
        "https://graph.threads.net/v1.0/"@ + user_id + "/threads_publish"@,
        seq![("creation_id"@, creation_id), ("access_token"@, access_token)],
    )
}

pub open spec fn permalink_request_view(post_id: Seq<char>, access_token: Seq<char>) -> (Method, Seq<char>, Seq<(Seq<char>, Seq<char>)>) {
    (
        Method::Get,
        "https://graph.threads.net/v1.0/"@ + post_id,
        seq![("fields"@, "permalink"@), ("access_token"@, access_token)],
    )
}

fn param(name: &str, value: &str) -> (r: (String, String))
    ensures
        pair_view(r) == (name@, value@),
{
    (String::from_str(name), String::from_str(value))
}

/// Phase 1: stage the message as a text container of the account.
pub fn container_request(user_id: &str, message: &str, access_token: &str) -> (r: QueryRequest)
    ensures
        request_view(r) == container_request_view(user_id@, message@, access_token@),
{
    let url = String::from_str(GRAPH_API).concat(user_id).concat("/threads");
    let query = vec![
        param("media_type", "TEXT"),
        param("text", message),
        param("access_token", access_token),
    ];
    proof {
        assert(query_view(query@) =~= seq![
            ("media_type"@, "TEXT"@),
            ("text"@, message@),
            ("access_token"@, access_token@),
        ]);
    }
    QueryRequest { method: Method::Post, url, query }
}

/// Phase 2: publish the staged container.
pub fn publish_request(user_id: &str, creation_id: &str, access_token: &str) -> (r: QueryRequest)
    ensures
        request_view(r) == publish_request_view(user_id@, creation_id@, access_token@),
{
    let url = String::from_str(GRAPH_API).concat(user_id).concat("/threads_publish");
    let query = vec![param("creation_id", creation_id), param("access_token", access_token)];
    proof {
        assert(query_view(query@) =~= seq![
            ("creation_id"@, creation_id@),
            ("access_token"@, access_token@),
        ]);
    }
    QueryRequest { method: Method::Post, url, query }
}

/// Phase 3: ask for the published post's permalink.
pub fn permalink_request(post_id: &str, access_token: &str) -> (r: QueryRequest)
    ensures
        request_view(r) == permalink_request_view(post_id@, access_token@),
{
    let url = String::from_str(GRAPH_API).concat(post_id);
    let query = vec![param("fields", "permalink"), param("access_token", access_token)];
    proof {
        assert(query_view(query@) =~= seq![
            ("fields"@, "permalink"@),
            ("access_token"@, access_token@),
        ]);
    }
    QueryRequest { method: Method::Get, url, query }
}

/// The two phases whose failure fails the post.
#[derive(Clone, Copy, Debug, PartialEq, Eq, Structural)]
pub enum Phase {
    CreateContainer,
    Publish,
}

pub open spec fn phase_context(p: Phase) -> Seq<char> {
    match p {
        Phase::CreateContainer => "Threads API (creating container)"@,
        Phase::Publish => "Threads API (publishing)"@,
    }
}

fn context_of(p: Phase) -> (r: String)
    ensures
        r@ == phase_context(p),
{
    match p {
        Phase::CreateContainer => String::from_str("Threads API (creating container)"),
        Phase::Publish => String::from_str("Threads API (publishing)"),
    }
}

/// What a phase's answer means: the identifier it returned, or why it failed.
pub open spec fn phase_adapter_result_view(p: Phase, status: u16, body: Seq<char>, id: Option<Seq<char>>) -> Result<Seq<char>, Seq<char>> {
    if !is_success(status) {
        Err(phase_context(p) + " returned error "@ + decimal(status as nat) + ": "@ + body)
    } else {
        match id {
            Some(i) => Ok(i),
            None => Err("unexpected response: "@ + "no id in the Threads API answer"@),
        }
    }
}

/// Classifies a phase's answer, given the identifier found at `id` of its body.
pub fn classify_phase(p: Phase, status: u16, body: &String, id: Option<String>) -> (r: Result<String, PostError>)
    ensures
        adapter_result_view(r) == phase_adapter_result_view(
            p,
            status,
            body@,
            match id {
                Some(i) => Some(i@),
                None => None,
            },
        ),
        !is_success(status) ==> (r matches Err(e) && e is Api && contains(error_message(e), body@)),
{
    if status < 200 || status > 299 {
        let e = PostError::Api { context: context_of(p), status, body: body.clone() };
        proof {
            crate::outcome::lemma_api_message_contains_body(e->context, status, e->body);
        }
        Err(e)
    } else {
        match id {
            Some(i) => Ok(i),
            None => Err(PostError::Parse { detail: String::from_str("no id in the Threads API answer") }),
        }
    }
}

/// The outcome of a phase from its status and body.
pub fn phase_outcome(p: Phase, status: u16, body: &String) -> (r: Result<String, PostError>)
    ensures
        adapter_result_view(r) == phase_adapter_result_view(p, status, body@, json_string_at(body@, "/id"@)),
{
    let id = string_at(body.as_str(), "/id");
    classify_phase(p, status, body, id)
}

/// What the permalink lookup gave.
#[derive(Clone, Debug)]
pub enum PermalinkLookup {
    /// The request failed, or its answer was not a post record.
    Unavailable,
    /// A post record came back, with or without its permalink.
    Answered { permalink: Option<String> },
}

/// `Post ID: <id> (Note: Open Threads app to view)`.
pub open spec fn placeholder_view(post_id: Seq<char>) -> Seq<char> {
    "Post ID: "@ + post_id + " (Note: Open Threads app to view)"@
}

/// `https://www.threads.com/t/<id> (Note: Open Threads app to view)`.
pub open spec fn guessed_url_view(post_id: Seq<char>) -> Seq<char> {
    "https://www.threads.com/t/"@ + post_id + " (Note: Open Threads app to view)"@
}

pub open spec fn resolved_view(post_id: Seq<char>, lookup: PermalinkLookup) -> Seq<char> {
    match lookup {
        PermalinkLookup::Unavailable => placeholder_view(post_id),
        PermalinkLookup::Answered { permalink } => match permalink {
            Some(p) => p@,
            None => guessed_url_view(post_id),
        },
    }
}

proof fn lemma_embeds(a: Seq<char>, id: Seq<char>, b: Seq<char>)
    ensures
        contains(a + id + b, id),
{
    assert((a + id + b).subrange(a.len() as int, a.len() + id.len() as int) =~= id);
}

/// The URL reported for a published post. A failed lookup never fails the
/// post: a non-empty placeholder naming the post identifier stands in.
pub fn resolve_url(post_id: &str, lookup: PermalinkLookup) -> (r: String)
    ensures
        r@ == resolved_view(post_id@, lookup),
        lookup is Unavailable ==> r@.len() > 0 && contains(r@, post_id@),
        lookup matches PermalinkLookup::Answered { permalink: None } ==> contains(r@, post_id@),
{
    match lookup {
        PermalinkLookup::Unavailable => {
            proof {
                lemma_embeds("Post ID: "@, post_id@, " (Note: Open Threads app to view)"@);
                reveal_strlit("Post ID: ");
            }
            String::from_str("Post ID: ").concat(post_id).concat(" (Note: Open Threads app to view)")
        },
        PermalinkLookup::Answered { permalink } => match permalink {
            Some(p) => p,
            None => {
                proof {
                    lemma_embeds("https://www.threads.com/t/"@, post_id@, " (Note: Open Threads app to view)"@);
                }
                String::from_str("https://www.threads.com/t/").concat(post_id).concat(
                    " (Note: Open Threads app to view)",
                )
            },
        },
    }
}

/// What the lookup's answer body says, when one came back: a post record is
/// one with a string `id`; its permalink is the string at `permalink`.
pub fn lookup_of(body: Option<&String>) -> (r: PermalinkLookup)
    ensures
        body is None ==> r is Unavailable,
        body matches Some(b) ==> (json_string_at(b@, "/id"@) is None <==> r is Unavailable),
        body matches Some(b) ==> (r matches PermalinkLookup::Answered { permalink } ==> match permalink {
            Some(p) => json_string_at(b@, "/permalink"@) == Some(p@),
            None => json_string_at(b@, "/permalink"@) is None,
        }),
{
    match body {
        None => PermalinkLookup::Unavailable,
        Some(b) => match string_at(b.as_str(), "/id") {
            None => PermalinkLookup::Unavailable,
            Some(_) => PermalinkLookup::Answered { permalink: string_at(b.as_str(), "/permalink") },
        },
    }
}

/// The URL reported for a published post, given the lookup's answer body.
pub open spec fn answered_url_view(post_id: Seq<char>, body: Seq<char>) -> Seq<char> {
    if json_string_at(body, "/id"@) is None {
        placeholder_view(post_id)
    } else {
        match json_string_at(body, "/permalink"@) {
            Some(p) => p,
            None => guessed_url_view(post_id),
        }
    }
}

/// The URL of a published post from the permalink lookup's answer body, if any.
pub fn resolve_permalink(post_id: &str, body: Option<&String>) -> (r: String)
    ensures
        body is None ==> r@ == placeholder_view(post_id@),
        body matches Some(b) ==> r@ == answered_url_view(post_id@, b@),
{
    resolve_url(post_id, lookup_of(body))
}

/// Where the publish protocol stands.
#[derive(Clone, Debug)]
pub enum Stage {
    /// Waiting for the container to be staged.
    CreatingContainer,
    /// Waiting for the container to be published.
    Publishing,
    /// Published as `post_id`; waiting for its permalink.
    Resolving { post_id: String },
}

/// What came of the last request.
#[derive(Clone, Debug)]
pub enum Event {
    /// An answer arrived, with its status and body.
    Answered { status: u16, body: String },
    /// The transport failed before an answer arrived.
    Failed { detail: String },
}

/// What the protocol does next.
#[derive(Debug)]
pub enum Step {
    Send { stage: Stage, request: QueryRequest },
    Finished(Result<String, PostError>),
}

/// What the answer to a fatal phase means, as an identifier or an error message.
pub open spec fn phase_event_view(p: Phase, event: Event) -> Result<Seq<char>, Seq<char>> {
    match event {
        Event::Answered { status, body } => phase_adapter_result_view(p, status, body@, json_string_at(body@, "/id"@)),
        Event::Failed { detail } => Err("network error: "@ + detail@),
    }
}

/// The first request of the protocol.
pub fn start(user_id: &str, message: &str, access_token: &str) -> (r: Step)
    ensures
        r matches Step::Send { stage, request } && stage is CreatingContainer && request_view(request)
            == container_request_view(user_id@, message@, access_token@),
{
    Step::Send { stage: Stage::CreatingContainer, request: container_request(user_id, message, access_token) }
}

fn phase_result(p: Phase, event: Event) -> (r: Result<String, PostError>)
    ensures
        adapter_result_view(r) == phase_event_view(p, event),
{
    match event {
        Event::Answered { status, body } => phase_outcome(p, status, &body),
        Event::Failed { detail } => Err(PostError::Network { detail }),
    }
}

/// The next step after `event` at `stage`. A failure while staging or publishing
/// ends the post with that failure; once published the post succeeds, with the
/// permalink if the lookup gives one and a placeholder naming the post otherwise.
pub fn advance(user_id: &str, access_token: &str, stage: Stage, event: Event) -> (r: Step)
    ensures
        stage is CreatingContainer ==> match phase_event_view(Phase::CreateContainer, event) {
            Ok(id) => (r matches Step::Send { stage: next, request } && next is Publishing
                && request_view(request) == publish_request_view(user_id@, id, access_token@)),
            Err(m) => (r matches Step::Finished(o) && adapter_result_view(o) == Err::<Seq<char>, Seq<char>>(m)),
        },
        stage is Publishing ==> match phase_event_view(Phase::Publish, event) {
            Ok(id) => (r matches Step::Send { stage: next, request } && next matches Stage::Resolving {
                post_id,
            } && post_id@ == id && request_view(request) == permalink_request_view(id, access_token@)),
            Err(m) => (r matches Step::Finished(o) && adapter_result_view(o) == Err::<Seq<char>, Seq<char>>(m)),
        },
        stage matches Stage::Resolving { post_id } ==> (r matches Step::Finished(Ok(url)) && url@
            == match event {
            Event::Answered { body, .. } => answered_url_view(post_id@, body@),
            Event::Failed { .. } => placeholder_view(post_id@),
        }),
        stage matches Stage::Resolving { post_id } ==> (event is Failed ==> (r matches Step::Finished(
            Ok(url),
        ) && url@.len() > 0 && contains(url@, post_id@))),
{
    match stage {
        Stage::CreatingContainer => match phase_result(Phase::CreateContainer, event) {
            Ok(id) => Step::Send {
                stage: Stage::Publishing,
                request: publish_request(user_id, id.as_str(), access_token),
            },
            Err(e) => Step::Finished(Err(e)),
        },
        Stage::Publishing => match phase_result(Phase::Publish, event) {
            Ok(id) => {
                let request = permalink_request(id.as_str(), access_token);
                Step::Send { stage: Stage::Resolving { post_id: id }, request }
            },
            Err(e) => Step::Finished(Err(e)),
        },
        Stage::Resolving { post_id } => match event {
            Event::Answered { body, .. } => {
                Step::Finished(Ok(resolve_permalink(post_id.as_str(), Some(&body))))
            },
            Event::Failed { .. } => {
                Step::Finished(Ok(resolve_url(post_id.as_str(), PermalinkLookup::Unavailable)))
            },
        },
    }
}

} // verus!
