use vstd::prelude::*;

verus! {

/// What reading the page envelope shape
/// `{ "page", "results", "total_pages", "total_results" }` out of a body
/// yields: the three counters and each element of `results` re-rendered as
/// JSON text; `None` when the body has no such shape.
pub uninterp spec fn page_envelope_of(body: Seq<char>) -> Option<(u64, u64, u64, Seq<Seq<char>>)>;

/// Relies on serde_json::from_str and serde_json::Value: reads the page
/// envelope counters with Value::as_u64 and renders each result item back
/// to text with Value::to_string. The result depends on the body alone.
#[verifier::external_body]
pub(crate) fn parse_page_envelope(body: &str) -> (r: Option<(u64, u64, u64, Vec<String>)>)
    ensures
        match r {
            Some(e) => page_envelope_of(body@) matches Some(t) && t.0 == e.0 && t.1 == e.1 && t.2
                == e.2 && t.3.len() == e.3@.len() && (forall|i: int|
                0 <= i < e.3@.len() ==> #[trigger] t.3[i] == e.3@[i]@),
            None => page_envelope_of(body@) is None,
        },
{
    let v: serde_json::Value = serde_json::from_str(body).ok()?;
    let page = v.get("page")?.as_u64()?;
    let total_pages = v.get("total_pages")?.as_u64()?;
    let total_results = v.get("total_results")?.as_u64()?;
    let results = v.get("results")?.as_array()?.iter().map(|x| x.to_string()).collect();
    Some((page, total_pages, total_results, results))
}

/// What reading the general error shape `{ "status_message": ... }` out of
/// a body yields; `None` when the body has no such shape.
pub uninterp spec fn status_message_of(body: Seq<char>) -> Option<Seq<char>>;

/// Relies on serde_json::from_str and serde_json::Value: reads the
/// `status_message` string field. The result depends on the body alone.
#[verifier::external_body]
pub(crate) fn parse_status_message(body: &str) -> (r: Option<String>)
    ensures
        match r {
            Some(m) => status_message_of(body@) == Some(m@),
            None => status_message_of(body@) is None,
        },
{
    let v: serde_json::Value = serde_json::from_str(body).ok()?;
    Some(v.get("status_message")?.as_str()?.to_string())
}

/// What reading the validation error shape `{ "errors": [...] }` out of a
/// body yields: the list of messages; `None` when the body has no such
/// shape or some element is not a string.
pub uninterp spec fn error_list_of(body: Seq<char>) -> Option<Seq<Seq<char>>>;

/// Relies on serde_json::from_str and serde_json::Value: reads the
/// `errors` array of strings. The result depends on the body alone.
#[verifier::external_body]
pub(crate) fn parse_error_list(body: &str) -> (r: Option<Vec<String>>)
    ensures
        match r {
            Some(v) => error_list_of(body@) matches Some(t) && t.len() == v@.len() && (forall|
                i: int,
            |
                0 <= i < v@.len() ==> #[trigger] t[i] == v@[i]@),
            None => error_list_of(body@) is None,
        },
{
    let v: serde_json::Value = serde_json::from_str(body).ok()?;
    let arr = v.get("errors")?.as_array()?;
    let mut out = Vec::new();
    for item in arr {
        out.push(item.as_str()?.to_string());
    }
    Some(out)
}

} // verus!
