use std::cell::RefCell;

use eiga::movie;
use eiga::search;
use eiga::{build_request, interpret_response, Client, Endpoint, Error};

/// A client that dispatches against a scripted wire answer, recording each
/// prepared request, exactly as the real transport composes the library's
/// request builder and response interpreter.
struct TestClient {
    status: u16,
    body: String,
    calls: RefCell<Vec<String>>,
}

impl TestClient {
    fn ok() -> TestClient {
        TestClient::with_response(200, "{}")
    }

    fn with_response(status: u16, body: &str) -> TestClient {
        TestClient {
            status,
            body: body.to_string(),
            calls: RefCell::new(Vec::new()),
        }
    }

    fn calls(&self) -> Vec<String> {
        self.calls.borrow().clone()
    }
}

impl Client for TestClient {
    fn send<E: Endpoint>(&self, endpoint: &E) -> Result<String, Error> {
        let request = build_request("http://mock.test/", endpoint).unwrap();
        self.calls
            .borrow_mut()
            .push(format!("{} {}", request.method.name(), request.url));
        interpret_response(self.status, self.body.clone())
    }

    fn ignore<E: Endpoint>(&self, endpoint: &E) -> Result<(), Error> {
        self.send(endpoint)?;
        Ok(())
    }
}

fn check<E: Endpoint>(client: TestClient, endpoint: E, expected_call: &str) {
    let result = client.ignore(&endpoint);

    assert!(
        result.is_ok(),
        "expected result to be `Ok`, got `Err`:\n{:#?}",
        result
    );
    assert_eq!(client.calls(), vec![expected_call.to_string()]);
}

fn check_err<E: Endpoint>(
    client: TestClient,
    endpoint: E,
    expected_code: u16,
    expected_message: &str,
) {
    let result = client.ignore(&endpoint);

    assert!(
        matches!(
            result,
            Err(Error::Api { code, ref message })
                if code == expected_code
                    && message == expected_message
        ),
        "expected an API error with code {} and message \"{}\", got:\n{:#?}",
        expected_code,
        expected_message,
        result
    );
}

#[test]
fn unprocessable_entity() {
    let expected_code = 422;
    let expected_message = "page must be less than or equal to 500";

    let test_client = TestClient::with_response(
        expected_code,
        "{ \"errors\": [\"page must be less than or equal to 500\"] }",
    );

    let search_movies_endpoint = search::Movies::new("Cruel Gun Story").page(600);

    assert_eq!(search_movies_endpoint.method().name(), "GET");
    assert_eq!(search_movies_endpoint.path(), "search/movie");

    check_err(
        test_client,
        search_movies_endpoint,
        expected_code,
        expected_message,
    );
}

#[test]
fn not_found() {
    let expected_code = 404;
    let expected_message = "The resource you requested could not be found.";

    let test_client = TestClient::with_response(
        expected_code,
        "{\"success\":false, \"status_code\":34, \"status_message\": \"The resource you requested could not be found.\"}",
    );

    let movie_details_endpoint = movie::Details::new(115572);

    assert_eq!(movie_details_endpoint.path(), "movie/115572");

    check_err(
        test_client,
        movie_details_endpoint,
        expected_code,
        expected_message,
    );
}

#[test]
fn get_movie_details() {
    let test_client = TestClient::ok();

    let movie_details_endpoint = movie::Details::new(500).language("en-US");

    check(
        test_client,
        movie_details_endpoint,
        "GET http://mock.test/movie/500?language=en-US",
    );
}

#[test]
fn get_movie_alternative_titles() {
    let test_client = TestClient::ok();

    let movie_alternative_titles_endpoint = movie::AlternativeTitles::new(500).country("US");

    check(
        test_client,
        movie_alternative_titles_endpoint,
        "GET http://mock.test/movie/500/alternative_titles?country=US",
    );
}

#[test]
fn get_movie_credits() {
    let test_client = TestClient::ok();

    let movie_credits_endpoint = movie::MovieCredits::builder(500).language("en-US").build();

    check(
        test_client,
        movie_credits_endpoint,
        "GET http://mock.test/movie/500/credits?language=en-US",
    );
}

#[test]
fn search_movies() {
    let test_client = TestClient::ok();

    let search_movies_endpoint = search::SearchMovie::builder("Samurai Spy")
        .language("en-US")
        .page(1)
        .include_adult(false)
        .region("US")
        .year(1965)
        .primary_release_year(1965)
        .build();

    check(
        test_client,
        search_movies_endpoint,
        "GET http://mock.test/search/movie?query=Samurai%20Spy&language=en-US&page=1&include_adult=false&region=US&year=1965&primary_release_year=1965",
    );
}
