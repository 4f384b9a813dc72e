//! Decentralized graph service: collection name, record key and post URL.
use vstd::prelude::*;
use crate::outcome::PostError;

verus! {

/// The collection a post record is created in.
pub const POST_COLLECTION: &'static str = "app.bsky.feed.post";

/// The service the session logs in to.
pub const SERVICE_URL: &'static str = "https://bsky.social";

/// Index where the last '/'-separated segment of `s` starts.
pub open spec fn segment_start(s: Seq<char>) -> int
    decreases s.len(),
{
    if s.len() == 0 {
        0
    } else if s.last() == '/' {
        s.len() as int
    } else {
        segment_start(s.drop_last())
    }
}

/// What follows the last '/' of `s`; all of `s` when it holds none.
pub open spec fn last_segment(s: Seq<char>) -> Seq<char> {
    s.subrange(segment_start(s), s.len() as int)
}

pub proof fn lemma_segment_start_bounds(s: Seq<char>)
    ensures
        0 <= segment_start(s) <= s.len(),
        forall|j: int| segment_start(s) <= j < s.len() ==> s[j] != '/',
        segment_start(s) > 0 ==> s[segment_start(s) - 1] == '/',
    decreases s.len(),
{
    if s.len() > 0 && s.last() != '/' {
        let t = s.drop_last();
        lemma_segment_start_bounds(t);
        assert forall|j: int| segment_start(s) <= j < s.len() implies s[j] != '/' by {
            if j < t.len() {
                assert(s[j] == t[j]);
            }
        }
    }
}

/// The segment after `prefix`, when `prefix` ends in '/' and the rest has none.
pub proof fn lemma_segment_after_slash(prefix: Seq<char>, rest: Seq<char>)
    requires
        prefix.len() > 0,
        prefix.last() == '/',
        forall|j: int| 0 <= j < rest.len() ==> rest[j] != '/',
    ensures
        segment_start(prefix + rest) == prefix.len(),
        last_segment(prefix + rest) == rest,
    decreases rest.len(),
{
    if rest.len() == 0 {
        assert(prefix + rest =~= prefix);
    } else {
        assert((prefix + rest).drop_last() =~= prefix + rest.drop_last());
        lemma_segment_after_slash(prefix, rest.drop_last());
    }
    assert((prefix + rest).subrange(prefix.len() as int, (prefix + rest).len() as int) =~= rest);
}

/// No character of `s` is '/'.
pub open spec fn slash_free(s: Seq<char>) -> bool {
    forall|j: int| 0 <= j < s.len() ==> s[j] != '/'
}

/// `at://<account>/<collection>/<key>`.
pub open spec fn record_uri(account: Seq<char>, collection: Seq<char>, key: Seq<char>) -> Seq<char> {
    "at://"@ + account + "/"@ + collection + "/"@ + key
}

/// A resource URI of the shape `at://<account>/<collection>/<key>`, each of
/// the three parts non-empty and free of '/'.
pub open spec fn is_record_uri(s: Seq<char>) -> bool {
    exists|account: Seq<char>, collection: Seq<char>, key: Seq<char>|
        account.len() > 0 && collection.len() > 0 && key.len() > 0 && slash_free(account)
            && slash_free(collection) && slash_free(key) && s == #[trigger] record_uri(
            account,
            collection,
            key,
        )
}

proof fn lemma_record_uri_layout(account: Seq<char>, collection: Seq<char>, key: Seq<char>)
    requires
        slash_free(account),
        slash_free(collection),
        slash_free(key),
    ensures
        ({
            let s = record_uri(account, collection, key);
            let p1: int = 5 + account.len() as int;
            let p2: int = p1 + 1 + collection.len() as int;
            &&& s.len() == p2 + 1 + key.len()
            &&& s[0] == 'a' && s[1] == 't' && s[2] == ':' && s[3] == '/' && s[4] == '/'
            &&& forall|j: int| 5 <= j < p1 ==> s[j] != '/'
            &&& s[p1] == '/'
            &&& forall|j: int| p1 < j < p2 ==> s[j] != '/'
            &&& s[p2] == '/'
            &&& forall|j: int| p2 < j < s.len() ==> s[j] != '/'
        }),
{
    reveal_strlit("at://");
    reveal_strlit("/");
    let s = record_uri(account, collection, key);
    let p1: int = 5 + account.len() as int;
    let p2: int = p1 + 1 + collection.len() as int;
    assert forall|j: int| 5 <= j < p1 implies s[j] != '/' by {
        assert(s[j] == account[j - 5]);
    }
    assert forall|j: int| p1 < j < p2 implies s[j] != '/' by {
        assert(s[j] == collection[j - p1 - 1]);
    }
    assert forall|j: int| p2 < j < s.len() implies s[j] != '/' by {
        assert(s[j] == key[j - p2 - 1]);
    }
}

/// Index of the first '/' of `s` at or after `from`, or the length of `s`.
fn find_slash(s: &str, from: usize) -> (r: usize)
    requires
        from <= s@.len(),
    ensures
        from <= r <= s@.len(),
        forall|j: int| from <= j < r ==> s@[j] != '/',
        r < s@.len() ==> s@[r as int] == '/',
{
    let n = s.unicode_len();
    let mut i: usize = from;
    while i < n
        invariant
            from <= i <= n,
            n == s@.len(),
            forall|j: int| from <= j < i ==> s@[j] != '/',
        decreases n - i,
    {
        if s.get_char(i) == '/' {
            return i;
        }
        i = i + 1;
    }
    i
}

fn malformed(uri: &str) -> (r: PostError)
    ensures
        r is Parse,
{
    PostError::Parse { detail: String::from_str("malformed record URI: ").concat(uri) }
}

/// The record key of a resource URI `at://<account>/<collection>/<key>`; a
/// parse error for a URI of any other shape.
pub fn record_key(uri: &str) -> (r: Result<String, PostError>)
    ensures
        r is Ok <==> is_record_uri(uri@),
        r matches Ok(k) ==> k@ == last_segment(uri@) && k@.len() > 0,
        r matches Err(e) ==> e is Parse,
{
    let n = uri.unicode_len();
    let prefixed = n >= 5 && uri.get_char(0) == 'a' && uri.get_char(1) == 't' && uri.get_char(2)
        == ':' && uri.get_char(3) == '/' && uri.get_char(4) == '/';
    if !prefixed {
        proof {
            if is_record_uri(uri@) {
                let (a, c, k) = choose|a: Seq<char>, c: Seq<char>, k: Seq<char>|
                    a.len() > 0 && c.len() > 0 && k.len() > 0 && slash_free(a) && slash_free(c)
                        && slash_free(k) && uri@ == #[trigger] record_uri(a, c, k);
                lemma_record_uri_layout(a, c, k);
            }
        }
        return Err(malformed(uri));
    }
    let i1 = find_slash(uri, 5);
    let i2 = if i1 < n {
        find_slash(uri, i1 + 1)
    } else {
        n
    };
    let i3 = if i2 < n {
        find_slash(uri, i2 + 1)
    } else {
        n
    };
    let shaped = i1 > 5 && i1 < n && i2 > i1 + 1 && i2 < n && i2 + 1 < n && i3 == n;
    proof {
        if is_record_uri(uri@) {
            let (a, c, k) = choose|a: Seq<char>, c: Seq<char>, k: Seq<char>|
                a.len() > 0 && c.len() > 0 && k.len() > 0 && slash_free(a) && slash_free(c)
                    && slash_free(k) && uri@ == #[trigger] record_uri(a, c, k);
            lemma_record_uri_layout(a, c, k);
            let p1: int = 5 + a.len() as int;
            let p2: int = p1 + 1 + c.len() as int;
            assert(uri@[p1] == '/');
            assert(i1 == p1);
            assert(uri@[p2] == '/');
            assert(i2 == p2);
            assert(shaped);
        }
        if shaped {
            let a = uri@.subrange(5, i1 as int);
            let c = uri@.subrange(i1 + 1, i2 as int);
            let k = uri@.subrange(i2 + 1, n as int);
            reveal_strlit("at://");
            reveal_strlit("/");
            assert(uri@ =~= record_uri(a, c, k));
            assert(is_record_uri(uri@));
        }
    }
    if !shaped {
        return Err(malformed(uri));
    }
    let ghost prefix = uri@.subrange(0, i2 + 1);
    let ghost rest = uri@.subrange(i2 + 1, n as int);
    proof {
        assert(prefix + rest =~= uri@);
        lemma_segment_after_slash(prefix, rest);
    }
    Ok(String::from_str(uri.substring_char(i2 + 1, n)))
}

/// The account name shown in a post URL: the handle, or the raw account
/// identifier when no handle is known.
pub open spec fn profile_id_view(handle: Seq<char>, did: Seq<char>) -> Seq<char> {
    if handle.len() > 0 {
        handle
    } else {
        did
    }
}

pub fn profile_id(handle: &str, did: &str) -> (r: String)
    ensures
        r@ == profile_id_view(handle@, did@),
{
    if handle.unicode_len() > 0 {
        String::from_str(handle)
    } else {
        String::from_str(did)
    }
}

/// `https://bsky.app/profile/<profile>/post/<key>`.
pub open spec fn post_url_view(profile: Seq<char>, key: Seq<char>) -> Seq<char> {
    "https://bsky.app/profile/"@ + profile + "/post/"@ + key
}

pub fn post_url(profile: &str, key: &str) -> (r: String)
    ensures
        r@ == post_url_view(profile@, key@),
{
    String::from_str("https://bsky.app/profile/").concat(profile).concat("/post/").concat(key)
}

/// The user-facing URL of the record created at `uri` by the session's
/// account; a parse error when `uri` is not a record URI.
pub fn post_url_for(handle: &str, did: &str, uri: &str) -> (r: Result<String, PostError>)
    ensures
        r is Ok <==> is_record_uri(uri@),
        r matches Ok(u) ==> u@ == post_url_view(profile_id_view(handle@, did@), last_segment(uri@)),
        r matches Err(e) ==> e is Parse,
{
    let key = record_key(uri)?;
    let profile = profile_id(handle, did);
    Ok(post_url(profile.as_str(), key.as_str()))
}

/// The URL built from a resource URI ends in that URI's record key.
pub proof fn lemma_url_ends_with_record_key(profile: Seq<char>, uri: Seq<char>)
    ensures
        last_segment(post_url_view(profile, last_segment(uri))) == last_segment(uri),
{
    lemma_segment_start_bounds(uri);
    let key = last_segment(uri);
    let prefix = "https://bsky.app/profile/"@ + profile + "/post/"@;
    reveal_strlit("/post/");
    assert(prefix.last() == '/');
    assert(post_url_view(profile, key) =~= prefix + key);
    lemma_segment_after_slash(prefix, key);
}

} // verus!
