use vstd::prelude::*;

use crate::endpoint::Endpoint;
use crate::error::Error;

verus! {

/// A trait for sending requests to endpoints.
///
/// Implementors of `Client` are called clients. A client performs exactly
/// one network exchange per call; what a network answers cannot be promised,
/// so these methods carry no postcondition, and the code around them states
/// what holds of every outcome.
pub trait Client {
    /// Sends a request to the given endpoint and returns the raw response
    /// body text on success.
    fn send<E: Endpoint>(&self, endpoint: &E) -> Result<String, Error>;

    /// Sends a request to the given endpoint and ignores the response.
    fn ignore<E: Endpoint>(&self, endpoint: &E) -> Result<(), Error>;
}

} // verus!
