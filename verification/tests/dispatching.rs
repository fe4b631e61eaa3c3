use std::cell::RefCell;

use eiga::movie;
use eiga::{build_request, interpret_response, Client, Endpoint, Error, Method, Tmdb};

/// Building a request resolves the path against the base URL and appends
/// the rendered query string after a single question mark.
#[test]
fn requests_carry_the_resolved_url() {
    let endpoint = movie::Details::new(500).language("en-US");
    let request = build_request("https://api.themoviedb.org/3/", &endpoint).unwrap();

    assert!(matches!(request.method, Method::Get));
    assert_eq!(request.url, "https://api.themoviedb.org/3/movie/500?language=en-US");
    assert!(request.body.is_none());
}

/// An endpoint without parameters gets no question mark at all.
#[test]
fn requests_without_parameters_have_no_query() {
    let endpoint = movie::Details::new(500);
    let request = build_request("https://api.themoviedb.org/3/", &endpoint).unwrap();

    assert_eq!(request.url, "https://api.themoviedb.org/3/movie/500");
}

/// An invalid base URL fails fast, before any network call.
#[test]
fn invalid_bases_fail_before_the_network() {
    let endpoint = movie::Details::new(500);
    assert!(matches!(
        build_request("not a url", &endpoint),
        Err(Error::UrlConstruction)
    ));
}

/// A client that records how many independent dispatches it served.
struct CountingClient {
    calls: RefCell<usize>,
}

impl Client for CountingClient {
    fn send<E: Endpoint>(&self, endpoint: &E) -> Result<String, Error> {
        build_request("http://mock.test/", endpoint).unwrap();
        *self.calls.borrow_mut() += 1;
        interpret_response(200, "{}".to_string())
    }

    fn ignore<E: Endpoint>(&self, endpoint: &E) -> Result<(), Error> {
        self.send(endpoint)?;
        Ok(())
    }
}

/// Idempotence: ignoring the same idempotent descriptor twice produces two
/// independent successful dispatches, with no state bleeding between them.
#[test]
fn ignore_twice_dispatches_twice() {
    let client = CountingClient {
        calls: RefCell::new(0),
    };
    let endpoint = movie::Details::new(500).language("en-US");

    assert!(client.ignore(&endpoint).is_ok());
    assert!(client.ignore(&endpoint).is_ok());
    assert_eq!(*client.calls.borrow(), 2);
}

/// The client configuration carries the bearer token and the base URL; an
/// override replaces the default.
#[test]
fn configuration_is_fixed_at_construction() {
    let tmdb = Tmdb::new("example-token").unwrap();
    assert_eq!(tmdb.base_url(), "https://api.themoviedb.org/3/");
    assert_eq!(tmdb.auth_header_value(), "Bearer example-token");

    let custom = Tmdb::builder("tok")
        .base_url("http://127.0.0.1:8080")
        .build()
        .unwrap();
    assert_eq!(custom.base_url(), "http://127.0.0.1:8080");
    assert_eq!(custom.auth_header_value(), "Bearer tok");
}

/// An unparseable base URL is rejected at build time.
#[test]
fn invalid_configuration_is_rejected() {
    let result = Tmdb::builder("tok").base_url("::not a url::").build();
    assert!(matches!(result, Err(Error::UrlConstruction)));
}
