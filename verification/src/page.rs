use std::collections::VecDeque;

use vstd::prelude::*;

use crate::client::Client;
use crate::endpoint::Endpoint;
use crate::error::Error;
use crate::http::Method;
use crate::parameters::{spec_replace, Parameters};
use crate::text::{dec_str, string_views};
use crate::wire::{page_envelope_of, parse_page_envelope};

verus! {

/// The response envelope of pageable endpoints: the reported page number,
/// the page's items, and the reported totals. `page == total_pages`
/// signals the final page.
pub struct Page<T> {
    /// The page number the server reports.
    pub page: u64,
    /// The page results.
    pub results: Vec<T>,
    /// The reported number of results over all pages.
    pub total_results: u64,
    /// The reported number of pages.
    pub total_pages: u64,
}

impl<T> Page<T> {
    /// Returns `true` if this is the last page of a search query.
    pub fn is_last_page(&self) -> (r: bool)
        ensures
            r == (self.page == self.total_pages),
    {
        self.page == self.total_pages
    }
}

/// A trait for pageable endpoint objects.
pub trait Pageable: Endpoint {
    /// The starting page of the endpoint, when it sets one.
    spec fn spec_start_page(&self) -> Option<u64>;

    /// Returns the starting page of the endpoint.
    fn start_page(&self) -> (p: Option<u64>)
        ensures
            p == self.spec_start_page(),
    ;
}

/// The advance rule of the pagination state machine, evaluated strictly
/// from the server-reported envelope: while the reported page lies before
/// the reported page count, the next page follows it; otherwise iteration
/// is exhausted.
pub open spec fn spec_advance(page: u64, total_pages: u64) -> Option<u64> {
    if page < total_pages {
        Some((page + 1) as u64)
    } else {
        None
    }
}

/// The number of page fetches a drain performs from cursor `p` against a
/// server that reports the requested page and the constant page count `n`:
/// one fetch, and then whatever the advance rule leaves.
pub open spec fn fetches_to_exhaustion(p: u64, n: u64) -> nat
    decreases n - p,
{
    match spec_advance(p, n) {
        None => 1,
        Some(q) => 1 + fetches_to_exhaustion(q, n),
    }
}

/// The pages such a drain requests, in order.
pub open spec fn pages_visited(p: u64, n: u64) -> Seq<u64>
    decreases n - p,
{
    match spec_advance(p, n) {
        None => seq![p],
        Some(q) => seq![p] + pages_visited(q, n),
    }
}

/// Pagination termination: against a server that reports the requested
/// page and a constant page count `n`, a drain whose cursor stands at `p`
/// performs exactly `n - p + 1` page fetches, requesting pages `p` through
/// `n` in increasing order, and then the cursor is exhausted.
pub proof fn lemma_pagination_exhausts(p: u64, n: u64)
    requires
        1 <= p <= n,
    ensures
        fetches_to_exhaustion(p, n) == n - p + 1,
        pages_visited(p, n) == Seq::new((n - p + 1) as nat, |i: int| (p + i) as u64),
    decreases n - p,
{
    if p < n {
        lemma_pagination_exhausts((p + 1) as u64, n);
        assert(pages_visited(p, n) =~= Seq::new((n - p + 1) as nat, |i: int| (p + i) as u64));
    } else {
        assert(pages_visited(p, n) =~= Seq::new((n - p + 1) as nat, |i: int| (p + i) as u64));
    }
}

/// A pagination iterator started with no explicit start page against such
/// a server issues exactly `n` requests, for pages 1 through `n` in that
/// order, and then yields no further pages.
pub proof fn lemma_pagination_terminates(n: u64)
    requires
        n >= 1,
    ensures
        fetches_to_exhaustion(1, n) == n,
        pages_visited(1, n).len() == n,
        forall|i: int| 0 <= i < n ==> pages_visited(1, n)[i] == i + 1,
{
    lemma_pagination_exhausts(1, n);
}

/// The derived endpoint a pagination iterator dispatches: the wrapped
/// endpoint's method and path, with the `page` parameter rewritten to the
/// cursor and the rest of the query string undisturbed. Page fetches carry
/// no body.
struct PageIterState<'a, E> {
    endpoint: &'a E,
    next_page: Option<u64>,
}

impl<'a, E: Pageable> Endpoint for PageIterState<'a, E> {
    closed spec fn spec_method(&self) -> Method {
        self.endpoint.spec_method()
    }

    closed spec fn spec_path(&self) -> Seq<char> {
        self.endpoint.spec_path()
    }

    closed spec fn spec_parameters(&self) -> Seq<(Seq<char>, Seq<char>)> {
        match self.next_page {
            Some(p) => spec_replace(self.endpoint.spec_parameters(), "page"@, dec_str(p as nat)),
            None => self.endpoint.spec_parameters(),
        }
    }

    closed spec fn spec_body(&self) -> Option<Seq<u8>> {
        None
    }

    fn method(&self) -> (m: Method) {
        self.endpoint.method()
    }

    fn path(&self) -> (p: String) {
        self.endpoint.path()
    }

    fn parameters(&self) -> (ps: Parameters) {
        let mut ps = self.endpoint.parameters();
        match self.next_page {
            Some(p) => {
                ps.replace("page", &p);
            },
            None => {},
        }
        ps
    }

    fn body(&self) -> (b: Option<Vec<u8>>) {
        None
    }
}

/// A pageable results iterator: wraps a descriptor, issues one dispatcher
/// call per page, strictly sequentially and never speculatively, and
/// yields raw result items one at a time from an internal buffer that is
/// replenished only when empty.
pub struct PageIter<'a, C, E> {
    client: &'a C,
    state: PageIterState<'a, E>,
    results: VecDeque<String>,
}

impl<'a, C: Client, E: Pageable> PageIter<'a, C, E> {
    /// The page the next fetch will request; iteration is terminal when
    /// this is absent.
    pub closed spec fn next_page_spec(&self) -> Option<u64> {
        self.state.next_page
    }

    /// The already-fetched, not yet yielded items.
    pub closed spec fn buffered(&self) -> Seq<Seq<char>> {
        string_views(self.results@)
    }

    /// Constructs a pagination iterator over `endpoint`: the cursor starts
    /// at the endpoint's own starting page, or at page 1 when it sets
    /// none, with nothing buffered.
    pub fn new(client: &'a C, endpoint: &'a E) -> (r: PageIter<'a, C, E>)
        ensures
            r.next_page_spec() == (match endpoint.spec_start_page() {
                Some(p) => Some(p),
                None => Some(1u64),
            }),
            r.buffered() == Seq::<Seq<char>>::empty(),
    {
        let next = match endpoint.start_page() {
            Some(p) => Some(p),
            None => Some(1),
        };
        let r = PageIter {
            client,
            state: PageIterState { endpoint, next_page: next },
            results: VecDeque::new(),
        };
        proof {
            assert(r.buffered() =~= Seq::<Seq<char>>::empty());
        }
        r
    }

    /// Feeds one server-reported page envelope into the iterator: the
    /// cursor moves by the advance rule, evaluated strictly from what the
    /// server reported, and the envelope's items join the buffer in order.
    pub fn absorb_page(&mut self, page: u64, total_pages: u64, items: Vec<String>)
        ensures
            final(self).next_page_spec() == spec_advance(page, total_pages),
            final(self).buffered() == old(self).buffered() + string_views(items@),
    {
        self.state.next_page = if page < total_pages {
            Some(page + 1)
        } else {
            None
        };
        let ghost cursor_after = self.state.next_page;
        let n = items.len();
        let mut k: usize = 0;
        while k < n
            invariant
                n == items@.len(),
                k <= n,
                self.results@.len() == old(self).results@.len() + k,
                forall|i: int|
                    0 <= i < old(self).results@.len() ==> self.results@[i] == old(
                        self,
                    ).results@[i],
                forall|i: int|
                    0 <= i < k ==> self.results@[old(self).results@.len() + i] == items@[i],
                self.state.next_page == cursor_after,
                self.state.endpoint == old(self).state.endpoint,
                self.client == old(self).client,
            decreases n - k,
        {
            self.results.push_back(items[k].clone());
            k += 1;
        }
        proof {
            assert(self.buffered() =~= old(self).buffered() + string_views(items@));
        }
    }

    /// Advances the iterator. Items already buffered are yielded first,
    /// oldest first, without any fetch, so every item of every envelope is
    /// yielded in page order before iteration ends. With an empty buffer,
    /// an exhausted cursor yields nothing and stays exhausted, with no
    /// network activity; a live cursor makes exactly one dispatcher call:
    /// a failure is yielded as a value and leaves the cursor where it was,
    /// while an envelope moves the cursor by the advance rule and refills
    /// the buffer with the envelope's items in order.
    pub fn next(&mut self) -> (r: Option<Result<String, Error>>)
        ensures
            old(self).buffered().len() > 0 ==> (match r {
                Some(Ok(text)) => text@ == old(self).buffered()[0]
                    && final(self).buffered() == old(self).buffered().drop_first()
                    && final(self).next_page_spec() == old(self).next_page_spec(),
                _ => false,
            }),
            old(self).buffered().len() == 0 && old(self).next_page_spec() is None ==> r is None
                && final(self).next_page_spec() is None
                && final(self).buffered().len() == 0,
            old(self).buffered().len() == 0 && old(self).next_page_spec() is Some ==> (match r {
                Some(Err(_)) => final(self).next_page_spec() == old(self).next_page_spec()
                    && final(self).buffered().len() == 0,
                Some(Ok(item)) => exists|body: Seq<char>|
                    #[trigger] page_envelope_of(body) matches Some(env) && env.3.len() > 0
                        && item@ == env.3[0] && final(self).buffered() == env.3.drop_first()
                        && final(self).next_page_spec() == spec_advance(env.0, env.1),
                None => exists|body: Seq<char>|
                    #[trigger] page_envelope_of(body) matches Some(env) && env.3.len() == 0
                        && final(self).buffered().len() == 0 && final(self).next_page_spec()
                        == spec_advance(env.0, env.1),
            }),
    {
        if self.results.len() > 0 {
            let front = self.results.pop_front();
            match front {
                Some(item) => {
                    proof {
                        assert(item@ == old(self).buffered()[0]);
                        assert(self.buffered() =~= old(self).buffered().drop_first());
                    }
                    return Some(Ok(item));
                },
                None => {
                    proof {
                        assert(false);
                    }
                    return None;
                },
            }
        }
        match self.state.next_page {
            None => {
                return None;
            },
            Some(_) => {},
        }
        let body = match self.client.send(&self.state) {
            Ok(b) => b,
            Err(e) => {
                return Some(Err(e));
            },
        };
        let parsed = match parse_page_envelope(body.as_str()) {
            Some(t) => t,
            None => {
                return Some(Err(Error::Decode));
            },
        };
        self.absorb_page(parsed.0, parsed.1, parsed.3);
        proof {
            let ghost t = page_envelope_of(body@).unwrap();
            assert(self.buffered() =~= t.3);
        }
        let front = self.results.pop_front();
        match front {
            Some(item) => {
                proof {
                    let t = page_envelope_of(body@).unwrap();
                    assert(self.buffered() =~= t.3.drop_first());
                    assert(self.next_page_spec() == spec_advance(t.0, t.1));
                    assert(page_envelope_of(body@) matches Some(env) && env.3.len() > 0 && item@
                        == env.3[0] && self.buffered() == env.3.drop_first()
                        && self.next_page_spec() == spec_advance(env.0, env.1));
                }
                Some(Ok(item))
            },
            None => {
                proof {
                    let t = page_envelope_of(body@).unwrap();
                    assert(self.buffered().len() == 0);
                    assert(page_envelope_of(body@) matches Some(env) && env.3.len() == 0
                        && self.buffered().len() == 0 && self.next_page_spec() == spec_advance(
                        env.0,
                        env.1,
                    ));
                }
                None
            },
        }
    }
}

} // verus!
