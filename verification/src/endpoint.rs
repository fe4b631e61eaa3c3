use vstd::prelude::*;

use crate::http::Method;
use crate::parameters::Parameters;

verus! {

/// A trait for endpoint objects: a passive value describing one API call
/// by its method, resource-relative path, query parameters, and optional
/// raw body. Any value exposing these four operations can be dispatched.
pub trait Endpoint {
    /// The HTTP method of this endpoint.
    spec fn spec_method(&self) -> Method;

    /// The path of this endpoint, relative to the API root.
    spec fn spec_path(&self) -> Seq<char>;

    /// The query string parameters of this endpoint.
    spec fn spec_parameters(&self) -> Seq<(Seq<char>, Seq<char>)>;

    /// The request body of this endpoint.
    spec fn spec_body(&self) -> Option<Seq<u8>>;

    /// Returns the HTTP method of this endpoint.
    fn method(&self) -> (m: Method)
        ensures
            m == self.spec_method(),
    ;

    /// Returns the path of this endpoint.
    fn path(&self) -> (p: String)
        ensures
            p@ == self.spec_path(),
    ;

    /// Returns the query string parameters of this endpoint.
    fn parameters(&self) -> (ps: Parameters)
        ensures
            ps@ == self.spec_parameters(),
    ;

    /// Returns the request body of this endpoint.
    fn body(&self) -> (b: Option<Vec<u8>>)
        ensures
            match b {
                Some(v) => self.spec_body() == Some(v@),
                None => self.spec_body() is None,
            },
    ;
}

} // verus!
