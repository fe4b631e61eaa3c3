use vstd::prelude::*;

verus! {

/// What resolving `path` against `base` yields, rendered back to text:
/// `None` when the base does not parse as an absolute URL or the
/// resolution fails.
pub uninterp spec fn resolved_url_of(base: Seq<char>, path: Seq<char>) -> Option<Seq<char>>;

/// Relies on url::Url::parse and url::Url::join: RFC 3986 resolution of a
/// path against an absolute base URL, rendered back to text by
/// url::Url::as_str. The result depends on the two strings alone.
#[verifier::external_body]
pub(crate) fn resolve_url(base: &str, path: &str) -> (r: Option<String>)
    ensures
        match r {
            Some(u) => resolved_url_of(base@, path@) == Some(u@),
            None => resolved_url_of(base@, path@) is None,
        },
{
    let parsed = url::Url::parse(base).ok()?;
    let joined = parsed.join(path).ok()?;
    Some(joined.as_str().to_string())
}

} // verus!
