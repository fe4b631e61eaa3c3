use vstd::prelude::*;

verus! {

/// The HTTP methods used by the API: reads and idempotent writes only.
#[derive(Clone, Copy, Debug, PartialEq, Eq, Structural)]
pub enum Method {
    Get,
    Put,
}

impl Method {
    /// The method's wire name.
    pub fn name(&self) -> (r: &'static str)
        ensures
            r@ == self.spec_name(),
    {
        match self {
            Method::Get => "GET",
            Method::Put => "PUT",
        }
    }

    /// The wire name as a sequence of characters.
    pub open spec fn spec_name(self) -> Seq<char> {
        match self {
            Method::Get => "GET"@,
            Method::Put => "PUT"@,
        }
    }
}

} // verus!
