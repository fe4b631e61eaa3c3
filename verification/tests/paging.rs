use std::cell::RefCell;

use eiga::search;
use eiga::{build_request, Client, Endpoint, Error, PageIter};

/// A client that answers page fetches the way an honest paginated server
/// does: it reports the requested page back, a fixed page count, and one
/// result item per page.
struct PagingClient {
    total_pages: u64,
    requested_pages: RefCell<Vec<u64>>,
}

impl PagingClient {
    fn new(total_pages: u64) -> PagingClient {
        PagingClient {
            total_pages,
            requested_pages: RefCell::new(Vec::new()),
        }
    }

    fn requested_pages(&self) -> Vec<u64> {
        self.requested_pages.borrow().clone()
    }
}

impl Client for PagingClient {
    fn send<E: Endpoint>(&self, endpoint: &E) -> Result<String, Error> {
        let request = build_request("http://mock.test/", endpoint).unwrap();
        let query = request.url.split('?').nth(1).unwrap_or("");
        let page: u64 = query
            .split('&')
            .find_map(|pair| pair.strip_prefix("page="))
            .expect("every page fetch carries a page parameter")
            .parse()
            .unwrap();
        self.requested_pages.borrow_mut().push(page);
        Ok(format!(
            "{{\"page\": {}, \"results\": [\"item{}\"], \"total_pages\": {}, \"total_results\": {}}}",
            page, page, self.total_pages, self.total_pages
        ))
    }

    fn ignore<E: Endpoint>(&self, endpoint: &E) -> Result<(), Error> {
        self.send(endpoint)?;
        Ok(())
    }
}

/// A pagination iterator started with no explicit start page against a
/// server reporting five pages performs exactly five dispatches, for pages
/// 1 through 5 in that order, and yields no further values afterwards.
#[test]
fn pagination_drains_five_pages_in_order() {
    let client = PagingClient::new(5);
    let endpoint = search::Movies::new("Tampopo");
    let mut iter = PageIter::new(&client, &endpoint);

    let mut items: Vec<String> = Vec::new();
    while let Some(result) = iter.next() {
        items.push(result.unwrap());
    }

    assert_eq!(client.requested_pages(), vec![1, 2, 3, 4, 5]);
    assert_eq!(
        items,
        vec!["\"item1\"", "\"item2\"", "\"item3\"", "\"item4\"", "\"item5\""]
    );

    // The iterator is exhausted: further calls are no-ops, not errors.
    assert!(iter.next().is_none());
    assert!(iter.next().is_none());
    assert_eq!(client.requested_pages().len(), 5);
}

/// A pagination iterator issues exactly as many requests as the server
/// reports pages, whatever the starting page.
#[test]
fn pagination_respects_the_start_page() {
    let client = PagingClient::new(5);
    let endpoint = search::Movies::new("Tampopo").page(4);
    let mut iter = PageIter::new(&client, &endpoint);

    let mut yielded = 0;
    while let Some(result) = iter.next() {
        result.unwrap();
        yielded += 1;
    }

    assert_eq!(client.requested_pages(), vec![4, 5]);
    assert_eq!(yielded, 2);
}

/// A server that reports a single page is fetched exactly once.
#[test]
fn pagination_stops_on_the_last_page() {
    let client = PagingClient::new(1);
    let endpoint = search::Movies::new("Hausu");
    let mut iter = PageIter::new(&client, &endpoint);

    assert!(matches!(iter.next(), Some(Ok(item)) if item == "\"item1\""));
    assert!(iter.next().is_none());
    assert_eq!(client.requested_pages(), vec![1]);
}

/// A client that serves two-item pages.
struct WidePagingClient {
    total_pages: u64,
    fetches: RefCell<usize>,
}

impl Client for WidePagingClient {
    fn send<E: Endpoint>(&self, endpoint: &E) -> Result<String, Error> {
        let request = build_request("http://mock.test/", endpoint).unwrap();
        let query = request.url.split('?').nth(1).unwrap_or("");
        let page: u64 = query
            .split('&')
            .find_map(|pair| pair.strip_prefix("page="))
            .unwrap()
            .parse()
            .unwrap();
        *self.fetches.borrow_mut() += 1;
        Ok(format!(
            "{{\"page\": {}, \"results\": [\"a{}\", \"b{}\"], \"total_pages\": {}, \"total_results\": {}}}",
            page, page, page, self.total_pages, 2 * self.total_pages
        ))
    }

    fn ignore<E: Endpoint>(&self, endpoint: &E) -> Result<(), Error> {
        self.send(endpoint)?;
        Ok(())
    }
}

/// Every item of every envelope is yielded, in page order with the order
/// inside each page preserved — the buffered tail of the final page
/// included.
#[test]
fn pagination_drains_the_final_page_completely() {
    let client = WidePagingClient {
        total_pages: 2,
        fetches: RefCell::new(0),
    };
    let endpoint = search::Movies::new("Gojira");
    let mut iter = PageIter::new(&client, &endpoint);

    let mut items: Vec<String> = Vec::new();
    while let Some(result) = iter.next() {
        items.push(result.unwrap());
    }

    assert_eq!(items, vec!["\"a1\"", "\"b1\"", "\"a2\"", "\"b2\""]);
    assert_eq!(*client.fetches.borrow(), 2);
}

/// Feeding an envelope by hand moves the cursor by the advance rule and
/// queues the envelope's items behind whatever is already buffered.
#[test]
fn absorbing_an_envelope_queues_its_items() {
    let client = PagingClient::new(9);
    let endpoint = search::Movies::new("Kumonosu-jo");
    let mut iter = PageIter::new(&client, &endpoint);

    iter.absorb_page(9, 9, vec!["x".to_string(), "y".to_string()]);

    // The reported page equals the reported page count, so the cursor is
    // exhausted: the buffered items drain with no further fetch.
    assert!(matches!(iter.next(), Some(Ok(item)) if item == "x"));
    assert!(matches!(iter.next(), Some(Ok(item)) if item == "y"));
    assert!(iter.next().is_none());
    assert_eq!(client.requested_pages().len(), 0);
}

/// A client that always fails below the HTTP layer.
struct FailingClient {
    calls: RefCell<usize>,
}

impl Client for FailingClient {
    fn send<E: Endpoint>(&self, _: &E) -> Result<String, Error> {
        *self.calls.borrow_mut() += 1;
        Err(Error::Transport("connection refused".to_string()))
    }

    fn ignore<E: Endpoint>(&self, endpoint: &E) -> Result<(), Error> {
        self.send(endpoint)?;
        Ok(())
    }
}

/// A dispatch failure is surfaced as the iterator's next value; the
/// iterator does not terminate on it, so consuming again retries the same
/// page.
#[test]
fn pagination_surfaces_errors_without_terminating() {
    let client = FailingClient {
        calls: RefCell::new(0),
    };
    let endpoint = search::Movies::new("Kairo");
    let mut iter = PageIter::new(&client, &endpoint);

    assert!(matches!(
        iter.next(),
        Some(Err(Error::Transport(ref m))) if m == "connection refused"
    ));
    assert!(matches!(iter.next(), Some(Err(Error::Transport(_)))));
    assert_eq!(*client.calls.borrow(), 2);
}

/// A client whose answer is not a page envelope.
struct GarbageClient {}

impl Client for GarbageClient {
    fn send<E: Endpoint>(&self, _: &E) -> Result<String, Error> {
        Ok("not an envelope".to_string())
    }

    fn ignore<E: Endpoint>(&self, _: &E) -> Result<(), Error> {
        Ok(())
    }
}

/// A body that cannot be decoded as a page envelope is a decode failure.
#[test]
fn pagination_reports_envelope_decode_failures() {
    let client = GarbageClient {};
    let endpoint = search::Movies::new("Onibaba");
    let mut iter = PageIter::new(&client, &endpoint);

    assert!(matches!(iter.next(), Some(Err(Error::Decode))));
}

/// The page envelope helper reports the final page by comparing the two
/// counters the server sent.
#[test]
fn last_page_compares_the_reported_counters() {
    let last: eiga::Page<String> = eiga::Page {
        page: 5,
        results: Vec::new(),
        total_results: 100,
        total_pages: 5,
    };
    let middle: eiga::Page<String> = eiga::Page {
        page: 2,
        results: Vec::new(),
        total_results: 100,
        total_pages: 5,
    };

    assert!(last.is_last_page());
    assert!(!middle.is_last_page());
}
