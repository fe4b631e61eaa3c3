use vstd::prelude::*;

verus! {

/// The closed set of failures that dispatching a request can surface.
///
/// Every failure is returned to the immediate caller as a typed result;
/// nothing is retried or suppressed.
#[derive(Debug)]
pub enum Error {
    /// Connection, TLS, timeout, or another failure below the HTTP layer,
    /// carrying the transport's own message. Propagated immediately, with
    /// the body never inspected.
    Transport(String),
    /// The base URL or the joined path is not a valid URL; fails fast
    /// before any network call is attempted.
    UrlConstruction,
    /// The response body could not be parsed as the expected JSON shape.
    Decode,
    /// The server answered with a status outside the success range and a
    /// structured error body: the literal HTTP status and the message
    /// extracted from the body.
    Api { code: u16, message: String },
}

} // verus!
