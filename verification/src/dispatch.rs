use vstd::prelude::*;

use crate::codec::{render_query, spec_render};
use crate::endpoint::Endpoint;
use crate::error::Error;
use crate::http::Method;
use crate::text::{string_push_char, string_views};
use crate::urls::{resolve_url, resolved_url_of};
use crate::wire::{error_list_of, parse_error_list, parse_status_message, status_message_of};

verus! {

/// One prepared network exchange: the wire method, the full request URL
/// with the rendered query string, and the raw body if the endpoint
/// carries one.
pub struct HttpRequest {
    pub method: Method,
    pub url: String,
    pub body: Option<Vec<u8>>,
}

/// The full request URL for a resolved base-plus-path and a parameter
/// collection: the rendered query string follows a single question mark,
/// and an empty collection adds nothing.
pub open spec fn spec_request_url(
    resolved: Seq<char>,
    params: Seq<(Seq<char>, Seq<char>)>,
) -> Seq<char> {
    if params.len() == 0 {
        resolved
    } else {
        resolved + seq!['?'] + spec_render(params)
    }
}

/// Whether a status code counts as success on the wire.
pub open spec fn is_success_status(status: u16) -> bool {
    200 <= status < 300
}

/// Prepares the one network exchange an endpoint describes: resolves the
/// path against the base URL, appends the rendered query string, and hands
/// the body through. Fails fast, before any network call, when the URL
/// cannot be constructed.
pub fn build_request<E: Endpoint>(base_url: &str, endpoint: &E) -> (r: Result<HttpRequest, Error>)
    ensures
        match r {
            Ok(req) => resolved_url_of(base_url@, endpoint.spec_path()) matches Some(u)
                && req.method == endpoint.spec_method() && req.url@ == spec_request_url(
                u,
                endpoint.spec_parameters(),
            ) && (match req.body {
                Some(b) => endpoint.spec_body() == Some(b@),
                None => endpoint.spec_body() is None,
            }),
            Err(e) => e == Error::UrlConstruction && resolved_url_of(
                base_url@,
                endpoint.spec_path(),
            ) is None,
        },
{
    let path = endpoint.path();
    let resolved = match resolve_url(base_url, path.as_str()) {
        Some(u) => u,
        None => {
            return Err(Error::UrlConstruction);
        },
    };
    let params = endpoint.parameters();
    let url = if params.len() == 0 {
        resolved
    } else {
        let mut u = resolved;
        string_push_char(&mut u, '?');
        let q = render_query(&params);
        u.append(q.as_str());
        u
    };
    Ok(HttpRequest { method: endpoint.method(), url, body: endpoint.body() })
}

/// Messages joined into one, a comma and a space between each two.
pub open spec fn spec_join(msgs: Seq<Seq<char>>) -> Seq<char>
    decreases msgs.len(),
{
    if msgs.len() == 0 {
        Seq::empty()
    } else if msgs.len() == 1 {
        msgs[0]
    } else {
        msgs[0] + ", "@ + spec_join(msgs.drop_first())
    }
}

/// Appending a message extends the joined text by a separator and that
/// message.
proof fn lemma_join_snoc(msgs: Seq<Seq<char>>, m: Seq<char>)
    requires
        msgs.len() >= 1,
    ensures
        spec_join(msgs.push(m)) == spec_join(msgs) + ", "@ + m,
    decreases msgs.len(),
{
    let t = msgs.push(m);
    assert(t[0] == msgs[0]);
    if msgs.len() == 1 {
        assert(t.drop_first() =~= seq![m]);
        assert(spec_join(t) == t[0] + ", "@ + spec_join(t.drop_first()));
        assert(spec_join(t) =~= spec_join(msgs) + ", "@ + m);
    } else {
        assert(t.drop_first() =~= msgs.drop_first().push(m));
        lemma_join_snoc(msgs.drop_first(), m);
        assert(spec_join(t) == t[0] + ", "@ + spec_join(t.drop_first()));
        assert(spec_join(msgs) == msgs[0] + ", "@ + spec_join(msgs.drop_first()));
        assert(spec_join(t) =~= spec_join(msgs) + ", "@ + m);
    }
}

/// Joins the messages of a validation error body into a single message.
fn join_messages(msgs: &Vec<String>) -> (r: String)
    ensures
        r@ == spec_join(string_views(msgs@)),
{
    let ghost views = string_views(msgs@);
    let mut out = String::new();
    let n = msgs.len();
    let mut i: usize = 0;
    while i < n
        invariant
            n == msgs@.len(),
            views == string_views(msgs@),
            views.len() == n,
            i <= n,
            out@ == spec_join(views.take(i as int)),
        decreases n - i,
    {
        if i > 0 {
            out.append(", ");
        }
        out.append(msgs[i].as_str());
        proof {
            assert(views[i as int] == msgs@[i as int]@);
            let taken = views.take(i + 1);
            assert(taken =~= views.take(i as int).push(views[i as int]));
            if i == 0 {
                assert(taken.len() == 1);
                assert(out@ =~= spec_join(taken));
            } else {
                lemma_join_snoc(views.take(i as int), views[i as int]);
                assert(out@ =~= spec_join(taken));
            }
        }
        i += 1;
    }
    proof {
        assert(views.take(n as int) =~= views);
    }
    out
}

/// The message a failing status's body carries, extracted per the two
/// known structured error shapes: the validation shape `{ "errors": [...]
/// }`, its messages joined into one, and the general shape
/// `{ "status_message": ... }`. An unprocessable-input status prefers the
/// validation shape, every other status the general one; either way the
/// other shape is the fallback. A body with neither shape carries no
/// message.
pub open spec fn spec_error_message(status: u16, body: Seq<char>) -> Option<Seq<char>> {
    if status == 422 {
        match error_list_of(body) {
            Some(msgs) => Some(spec_join(msgs)),
            None => status_message_of(body),
        }
    } else {
        match status_message_of(body) {
            Some(m) => Some(m),
            None => match error_list_of(body) {
                Some(msgs) => Some(spec_join(msgs)),
                None => None,
            },
        }
    }
}

/// What a completed HTTP exchange means: the relation between the wire
/// answer (status and body) and the outcome the dispatcher reports for it.
/// A status in the success range hands the body back for payload decoding.
/// Any other status is an API error carrying the literal status and the
/// message its body's structured shape carries; a failing status whose
/// body has no structured shape is a decode failure.
pub open spec fn spec_interpretation(status: u16, body: Seq<char>, r: Result<
    String,
    Error,
>) -> bool {
    match r {
        Ok(b) => is_success_status(status) && b@ == body,
        Err(e) => !is_success_status(status) && match e {
            Error::Api { code, message } => code == status && spec_error_message(status, body)
                == Some(message@),
            Error::Decode => spec_error_message(status, body) is None,
            _ => false,
        },
    }
}

/// One wire answer has one meaning: any two outcomes that stand in the
/// interpretation relation for the same status and body agree on success,
/// on the error kind, and on every code and message. The
/// dispatcher therefore keeps no state between calls: repeated identical
/// exchanges are interpreted independently and identically.
pub proof fn lemma_interpretation_deterministic(
    status: u16,
    body: Seq<char>,
    r1: Result<String, Error>,
    r2: Result<String, Error>,
)
    requires
        spec_interpretation(status, body, r1),
        spec_interpretation(status, body, r2),
    ensures
        match (r1, r2) {
            (Ok(b1), Ok(b2)) => b1@ == b2@,
            (Err(Error::Api { code: c1, message: m1 }), Err(Error::Api { code: c2, message: m2 }))
                => c1 == c2 && m1@ == m2@,
            (Err(Error::Decode), Err(Error::Decode)) => true,
            _ => false,
        },
{
}

/// Decides what a completed HTTP exchange means, by the interpretation
/// relation above.
pub fn interpret_response(status: u16, body: String) -> (r: Result<String, Error>)
    ensures
        spec_interpretation(status, body@, r),
{
    if 200 <= status && status < 300 {
        return Ok(body);
    }
    if status == 422 {
        match parse_error_list(body.as_str()) {
            Some(msgs) => {
                let message = join_messages(&msgs);
                proof {
                    let t = error_list_of(body@).unwrap();
                    assert(t =~= string_views(msgs@));
                }
                Err(Error::Api { code: status, message })
            },
            None => match parse_status_message(body.as_str()) {
                Some(message) => Err(Error::Api { code: status, message }),
                None => Err(Error::Decode),
            },
        }
    } else {
        match parse_status_message(body.as_str()) {
            Some(message) => Err(Error::Api { code: status, message }),
            None => match parse_error_list(body.as_str()) {
                Some(msgs) => {
                    let message = join_messages(&msgs);
                    proof {
                        let t = error_list_of(body@).unwrap();
                        assert(t =~= string_views(msgs@));
                    }
                    Err(Error::Api { code: status, message })
                },
                None => Err(Error::Decode),
            },
        }
    }
}

} // verus!
