//! The decisions of the request handler, apart from the I/O that surrounds
//! them.
//!
//! A request is answered in one of four ways, decided by its method and its
//! content type (read case-insensitively):
//! - `GET` with a JSON content type is a JSON query, answered `200` at once;
//! - `GET` otherwise reads the text stored under the request's path and
//!   answers it in quotes;
//! - `PUT` or `POST` with a JSON content type stores the [`KeyValue`] that
//!   the body holds (see [`crate::store::plan_store`]);
//! - `PUT` or `POST` otherwise stores the `value` query parameter under the
//!   request's path for ten minutes;
//! - any other method is answered `400`.
//!
//! [`KeyValue`]: crate::kv::KeyValue

use crate::store::PutText;
use crate::text::{lowercase_chars, same_text, to_lowercase};
use vstd::prelude::*;
use vstd::string::*;

verus! {

/// How long a text stored from a query parameter lives, in seconds.
pub const TEXT_EXPIRATION: u64 = 600;

/// An HTTP answer: status and optional body.
pub struct Reply {
    pub status: u16,
    pub body: Option<String>,
}

/// What the handler does next.
pub enum Action {
    /// Answer at once.
    Respond(Reply),
    /// Read the text stored under this key, then answer with [`get_reply`].
    Fetch(String),
    /// Read the body as a JSON `KeyValue`, then store it.
    StoreJson,
    /// Make this write, then answer `200`.
    Store(PutText),
}

/// The content type that marks a JSON request.
pub open spec fn is_json(content_type: Seq<char>) -> bool {
    lowercase_chars(content_type) == "application/json"@
}

/// Whether a reply is this status and body.
pub open spec fn reply_is(r: Reply, status: u16, body: Option<Seq<char>>) -> bool {
    &&& r.status == status
    &&& match body {
        None => r.body is None,
        Some(b) => r.body matches Some(t) && t@ == b,
    }
}

/// The text that a query parameter gives, an absent one being empty.
pub open spec fn text_or_empty(v: Option<String>) -> Seq<char> {
    match v {
        Some(s) => s@,
        None => Seq::empty(),
    }
}

/// The body that answers a read: the value in double quotes and a newline.
pub open spec fn quoted(v: Seq<char>) -> Seq<char> {
    "\""@ + v + "\"\n"@
}

/// The action for a request, given whether its content type is JSON.
pub open spec fn action_given(
    a: Action,
    method: Seq<char>,
    json: bool,
    pathname: Seq<char>,
    query_value: Option<String>,
) -> bool {
    if method == "GET"@ {
        if json {
            a matches Action::Respond(r) && reply_is(r, 200, None)
        } else {
            a matches Action::Fetch(k) && k@ == pathname
        }
    } else if method == "PUT"@ || method == "POST"@ {
        if json {
            a is StoreJson
        } else {
            a matches Action::Store(p) && p.key@ == pathname && p.value@ == text_or_empty(
                query_value,
            ) && p.expiration_ttl == 600
        }
    } else {
        a matches Action::Respond(r) && reply_is(r, 400, None)
    }
}

/// The action for a request, as the handler decides it.
pub open spec fn action_is(
    a: Action,
    method: Seq<char>,
    content_type: Seq<char>,
    pathname: Seq<char>,
    query_value: Option<String>,
) -> bool {
    action_given(a, method, is_json(content_type), pathname, query_value)
}

/// A read finds what a write stored: for a text request (not JSON), `PUT`
/// or `POST` of `value` on a path writes `value` under that path, a `GET` on
/// the same path reads that same key, and the answer to that read is the
/// value in quotes.
pub proof fn law_read_after_write(
    put: Action,
    get: Action,
    method: Seq<char>,
    content_type: Seq<char>,
    pathname: Seq<char>,
    value: String,
    get_content_type: Seq<char>,
    get_query: Option<String>,
    reply: Reply,
)
    requires
        method == "PUT"@ || method == "POST"@,
        !is_json(content_type),
        !is_json(get_content_type),
        action_is(put, method, content_type, pathname, Some(value)),
        action_is(get, "GET"@, get_content_type, pathname, get_query),
        reply_is(reply, 200, Some(quoted(text_or_empty(Some(value))))),
    ensures
        put matches Action::Store(p) && get matches Action::Fetch(k) && p.key@ == k@ && p.value@
            == value@,
        reply.body matches Some(b) && b@ == "\""@ + value@ + "\"\n"@,
{
    reveal_strlit("GET");
    reveal_strlit("PUT");
    reveal_strlit("POST");
    assert("PUT"@[0] != "GET"@[0]);
    assert("POST"@[0] != "GET"@[0]);
}

/// A `PUT` or `POST` whose content type reads `application/json` in any
/// case stores the JSON record of its body; nothing else does.
pub proof fn law_json_writes_store_the_record(
    a: Action,
    method: Seq<char>,
    content_type: Seq<char>,
    pathname: Seq<char>,
    query_value: Option<String>,
)
    requires
        action_is(a, method, content_type, pathname, query_value),
    ensures
        a is StoreJson <==> ((method == "PUT"@ || method == "POST"@) && lowercase_chars(content_type)
            == "application/json"@),
{
    reveal_strlit("GET");
    reveal_strlit("PUT");
    reveal_strlit("POST");
    assert("PUT"@[0] != "GET"@[0]);
    assert("POST"@[0] != "GET"@[0]);
}

/// `PUT` and `POST` are the same request: with the same content type, path
/// and query, both store the JSON record, or both make the same text write.
pub proof fn law_put_and_post_agree(
    put: Action,
    post: Action,
    content_type: Seq<char>,
    pathname: Seq<char>,
    query_value: Option<String>,
)
    requires
        action_is(put, "PUT"@, content_type, pathname, query_value),
        action_is(post, "POST"@, content_type, pathname, query_value),
    ensures
        put is StoreJson <==> post is StoreJson,
        put is Store <==> post is Store,
        put matches Action::Store(w) ==> post matches Action::Store(v) && w.key@ == v.key@
            && w.value@ == v.value@ && w.expiration_ttl == v.expiration_ttl,
{
    reveal_strlit("GET");
    reveal_strlit("PUT");
    reveal_strlit("POST");
    assert("PUT"@[0] != "GET"@[0]);
    assert("POST"@[0] != "GET"@[0]);
}

/// Text writes: every `PUT` or `POST` whose content type is not JSON,
/// whatever it is, writes the `value` query parameter (empty when absent)
/// under the request's path for ten minutes (600 seconds); and only such
/// requests write text.
pub proof fn law_text_writes_last_ten_minutes(
    a: Action,
    method: Seq<char>,
    content_type: Seq<char>,
    pathname: Seq<char>,
    query_value: Option<String>,
)
    requires
        action_is(a, method, content_type, pathname, query_value),
    ensures
        a is Store <==> ((method == "PUT"@ || method == "POST"@) && lowercase_chars(content_type)
            != "application/json"@),
        a matches Action::Store(w) ==> w.key@ == pathname && w.value@ == (match query_value {
            Some(v) => v@,
            None => Seq::<char>::empty(),
        }) && w.expiration_ttl == 10 * 60,
{
    reveal_strlit("GET");
    reveal_strlit("PUT");
    reveal_strlit("POST");
    assert("PUT"@[0] != "GET"@[0]);
    assert("POST"@[0] != "GET"@[0]);
}

/// Reads: a `GET` whose content type is not JSON reads the key of its path;
/// a JSON `GET` is answered `200` with no body; any method other than
/// `GET`, `PUT` and `POST` is answered `400` with no body.
pub proof fn law_reads_and_refusals(
    a: Action,
    method: Seq<char>,
    content_type: Seq<char>,
    pathname: Seq<char>,
    query_value: Option<String>,
)
    requires
        action_is(a, method, content_type, pathname, query_value),
    ensures
        method == "GET"@ && lowercase_chars(content_type) != "application/json"@ ==> (a matches Action::Fetch(
            k,
        ) && k@ == pathname),
        method == "GET"@ && lowercase_chars(content_type) == "application/json"@ ==> (a matches Action::Respond(
            r,
        ) && r.status == 200 && r.body is None),
        method != "GET"@ && method != "PUT"@ && method != "POST"@ ==> (a matches Action::Respond(r)
            && r.status == 400 && r.body is None),
{
}

impl Reply {
    /// A `200` answer with an optional body.
    pub fn ok(body: Option<String>) -> (r: Reply)
        ensures
            r.status == 200,
            r.body == body,
    {
        Reply { status: 200, body }
    }

    /// An answer with this status and message.
    pub fn with_status(status: u16, msg: String) -> (r: Reply)
        ensures
            r.status == status,
            r.body == Some(msg),
    {
        Reply { status, body: Some(msg) }
    }
}

/// Decide what to do with a request, from its method, its `Content-Type`
/// header, its path and its `value` query parameter.
pub fn decide(method: &str, content_type: &str, pathname: &str, query_value: Option<String>) -> (r:
    Action)
    ensures
        action_is(r, method@, content_type@, pathname@, query_value),
{
    let lower = to_lowercase(content_type);
    let json = same_text(lower.as_str(), "application/json");
    action_for(method, json, pathname, query_value)
}

/// Decide what to do with a request, given whether its content type is
/// JSON.
pub fn action_for(method: &str, json: bool, pathname: &str, query_value: Option<String>) -> (r:
    Action)
    ensures
        action_given(r, method@, json, pathname@, query_value),
{
    if same_text(method, "GET") {
        if json {
            Action::Respond(Reply::ok(None))
        } else {
            Action::Fetch(pathname.to_owned())
        }
    } else if same_text(method, "PUT") || same_text(method, "POST") {
        if json {
            Action::StoreJson
        } else {
            let value = match query_value {
                Some(v) => v,
                None => String::new(),
            };
            Action::Store(
                PutText { key: pathname.to_owned(), value, expiration_ttl: TEXT_EXPIRATION },
            )
        }
    } else {
        Action::Respond(Reply { status: 400, body: None })
    }
}

/// The answer to a read: `200` with the stored text (empty when there is
/// none) in double quotes, followed by a newline.
pub fn get_reply(value: Option<String>) -> (r: Reply)
    ensures
        reply_is(r, 200, Some(quoted(text_or_empty(value)))),
{
    let v = match value {
        Some(v) => v,
        None => String::new(),
    };
    let body = String::from_str("\"").concat(v.as_str()).concat("\"\n");
    Reply::ok(Some(body))
}

} // verus!
