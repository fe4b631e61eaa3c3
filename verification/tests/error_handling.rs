use std::cell::RefCell;

use eiga::movie;
use eiga::search;
use eiga::{build_request, interpret_response, Client, Endpoint, Error};

/// A client that dispatches against a scripted wire answer.
struct TestClient {
    status: u16,
    body: String,
    calls: RefCell<usize>,
}

impl TestClient {
    fn with_response(status: u16, body: &str) -> TestClient {
        TestClient {
            status,
            body: body.to_string(),
            calls: RefCell::new(0),
        }
    }
}

impl Client for TestClient {
    fn send<E: Endpoint>(&self, endpoint: &E) -> Result<String, Error> {
        build_request("http://mock.test/", endpoint).unwrap();
        *self.calls.borrow_mut() += 1;
        interpret_response(self.status, self.body.clone())
    }

    fn ignore<E: Endpoint>(&self, endpoint: &E) -> Result<(), Error> {
        self.send(endpoint)?;
        Ok(())
    }
}

fn check_err<E: Endpoint>(
    client: TestClient,
    endpoint: E,
    expected_code: u16,
    expected_message: &str,
) {
    let result = client.ignore(&endpoint);

    assert!(
        matches!(
            result,
            Err(Error::Api { code, ref message })
                if code == expected_code
                    && message == expected_message
        ),
        "expected an API error with code {} and message \"{}\", got:\n{:#?}",
        expected_code,
        expected_message,
        result
    );
}

#[test]
fn handle_unprocessable_entity() {
    let search_movies_endpoint = search::Movies::new("Cruel Gun Story").page(600);

    let expected_code = 422;
    let expected_message = "page must be less than or equal to 500";

    let client = TestClient::with_response(
        expected_code,
        "{ \"errors\": [\"page must be less than or equal to 500\"] }",
    );

    check_err(client, search_movies_endpoint, expected_code, expected_message);
}

#[test]
fn handle_not_found() {
    let movie_details_endpoint = movie::Details::new(115572);

    let expected_code = 404;
    let expected_message = "The resource you requested could not be found.";

    let client = TestClient::with_response(
        expected_code,
        "{\"success\":false, \"status_code\":34, \"status_message\": \"The resource you requested could not be found.\"}",
    );

    check_err(client, movie_details_endpoint, expected_code, expected_message);
}

#[test]
fn success_statuses_hand_the_body_back() {
    let body = "{\"id\": 500}".to_string();
    assert!(matches!(interpret_response(200, body.clone()), Ok(b) if b == body));
    assert!(matches!(interpret_response(299, body.clone()), Ok(b) if b == body));
}

#[test]
fn validation_messages_are_joined() {
    let result = interpret_response(
        422,
        "{\"errors\": [\"page must be greater than 0\", \"query must not be empty\"]}".to_string(),
    );

    assert!(matches!(
        result,
        Err(Error::Api { code: 422, ref message })
            if message == "page must be greater than 0, query must not be empty"
    ));
}

#[test]
fn unparseable_error_bodies_are_decode_failures() {
    assert!(matches!(
        interpret_response(500, "not json at all".to_string()),
        Err(Error::Decode)
    ));
    assert!(matches!(
        interpret_response(422, "{\"page\": 1}".to_string()),
        Err(Error::Decode)
    ));
    assert!(matches!(
        interpret_response(404, "{}".to_string()),
        Err(Error::Decode)
    ));
}

#[test]
fn the_other_error_shape_is_the_fallback() {
    // A 422 body that only carries the general shape still names the error.
    assert!(matches!(
        interpret_response(422, "{\"status_message\": \"general shape\"}".to_string()),
        Err(Error::Api { code: 422, ref message }) if message == "general shape"
    ));
    // A non-422 body that only carries the validation shape does too.
    assert!(matches!(
        interpret_response(400, "{\"errors\": [\"bad input\"]}".to_string()),
        Err(Error::Api { code: 400, ref message }) if message == "bad input"
    ));
}
