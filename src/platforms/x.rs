//! Microblog service: the signed tweet request and what its answer means.
use vstd::prelude::*;
use crate::json::{json_member_object, json_string_at, member_object, string_at};
use crate::outcome::{PostError, adapter_result_view, contains, decimal, error_message};

verus! {

/// The tweet-creation endpoint.
pub const TWEETS_ENDPOINT: &'static str = "https://api.twitter.com/2/tweets";

/// Pointer to the created tweet's identifier in a success answer.
pub const TWEET_ID_POINTER: &'static str = "/data/id";

/// A status in 200..=299.
pub open spec fn is_success(status: u16) -> bool {
    200 <= status <= 299
}

/// The request body: `{"text": message}`.
pub fn request_body(message: &str) -> (r: String)
    ensures
        r@ == json_member_object("text"@, message@),
{
    member_object("text", message)
}

/// `https://x.com/i/web/status/<id>`.
pub open spec fn tweet_url_view(id: Seq<char>) -> Seq<char> {
    "https://x.com/i/web/status/"@ + id
}

pub fn tweet_url(id: &str) -> (r: String)
    ensures
        r@ == tweet_url_view(id@),
{
    String::from_str("https://x.com/i/web/status/").concat(id)
}

/// What the tweet request produced, from its status, its body and the
/// identifier found in the body.
pub open spec fn tweet_outcome_view(status: u16, body: Seq<char>, id: Option<Seq<char>>) -> Result<Seq<char>, Seq<char>> {
    if !is_success(status) {
        Err("X API"@ + " returned error "@ + decimal(status as nat) + ": "@ + body)
    } else {
        match id {
            Some(i) => Ok(tweet_url_view(i)),
            None => Err("unexpected response: "@ + "no tweet id in the X API answer"@),
        }
    }
}

/// Classifies the answer to the tweet request, given the identifier that was
/// found at `data.id` of its body.
pub fn classify_answer(status: u16, body: &String, id: Option<String>) -> (r: Result<String, PostError>)
    ensures
        adapter_result_view(r) == tweet_outcome_view(
            status,
            body@,
            match id {
                Some(i) => Some(i@),
                None => None,
            },
        ),
        !is_success(status) ==> (r matches Err(e) && e is Api && contains(error_message(e), body@)),
{
    if status < 200 || status > 299 {
        let e = PostError::Api { context: String::from_str("X API"), status, body: body.clone() };
        proof {
            crate::outcome::lemma_api_message_contains_body(e->context, status, e->body);
        }
        Err(e)
    } else {
        match id {
            Some(i) => Ok(tweet_url(i.as_str())),
            None => Err(PostError::Parse { detail: String::from_str("no tweet id in the X API answer") }),
        }
    }
}

/// The outcome of the tweet request from its status and body.
pub fn tweet_outcome(status: u16, body: &String) -> (r: Result<String, PostError>)
    ensures
        adapter_result_view(r) == tweet_outcome_view(status, body@, json_string_at(body@, "/data/id"@)),
{
    let id = string_at(body.as_str(), TWEET_ID_POINTER);
    classify_answer(status, body, id)
}

} // verus!
