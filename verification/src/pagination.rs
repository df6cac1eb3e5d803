//! The pagination core: a walk over a paginated collection.
//!
//! A `Paginator` holds the state of one listing operation: the items
//! accumulated so far and the URL of the page still to be fetched, if any.
//! The caller owns the transport: it fetches `current_url`, classifies the
//! status with the library's own predicate, decodes the body, and hands the
//! outcome to `step`.  Every decision — which URL is requested first, how a
//! failure is classified, how a page's items are accumulated, and whether the
//! server's `next` link is followed — is made and verified here.
//!
//! The walk terminates as long as the server's `next` chain is finite; no
//! cycle detection is performed, since the wrapped service is trusted.

use vstd::prelude::*;

use crate::error::PokeApiError;
use crate::error::spec_is_success_status;
use crate::models::NamedApiResource;
use crate::models::NamedApiResourceList;
use crate::urls::build_list_url;
use crate::urls::list_url;

verus! {

/// What one attempt to fetch a page produced, as observed by the caller
/// driving the transport.
pub enum PageOutcome {
    /// No response was obtained; carries the transport error's description.
    TransportFailure(String),
    /// A response arrived with a non-success status.
    ErrorStatus(u16),
    /// A success response whose body decoded into a page.
    Parsed(NamedApiResourceList),
    /// A success response whose body did not match the page schema; carries
    /// the parse error's description.
    ParseFailure(String),
}

/// The view of an optional URL as an optional character sequence.
pub open spec fn opt_str_view(o: Option<String>) -> Option<Seq<char>> {
    match o {
        Some(u) => Some(u@),
        None => None,
    }
}

/// The abstract state of a paginated fetch: the items gathered so far, the
/// URL still to be fetched (none when the walk is over), and whether the
/// server's `next` links are to be followed.
#[verifier::ext_equal]
pub ghost struct PaginatorView {
    pub results: Seq<NamedApiResource>,
    pub next: Option<Seq<char>>,
    pub autopaginate: bool,
}

/// How accepting one successfully-decoded page transforms the walk's state:
/// the page's items are appended, in order, to what was gathered before, and
/// the walk continues at the page's `next` link only when autopagination is
/// on.
pub open spec fn page_step(s: PaginatorView, page: NamedApiResourceList) -> PaginatorView {
    PaginatorView {
        results: s.results + page.results@,
        next: if s.autopaginate {
            opt_str_view(page.next)
        } else {
            None
        },
        autopaginate: s.autopaginate,
    }
}

/// An in-progress walk over a paginated collection.
pub struct Paginator {
    /// The resource references gathered so far, in fetch order.
    pub results: Vec<NamedApiResource>,
    /// The URL of the page still to be fetched; `None` when the walk is over.
    pub next_url: Option<String>,
    /// Whether to follow the server's `next` links past the first page.
    pub autopaginate: bool,
}

impl View for Paginator {
    type V = PaginatorView;

    open spec fn view(&self) -> PaginatorView {
        PaginatorView {
            results: self.results@,
            next: opt_str_view(self.next_url),
            autopaginate: self.autopaginate,
        }
    }
}

impl Paginator {
    /// Starts a walk over `base + endpoint`, with `limit` / `offset` query
    /// parameters appended only when supplied.
    pub fn new(
        base: &str,
        endpoint: &str,
        limit: Option<u32>,
        offset: Option<u32>,
        autopaginate: bool,
    ) -> (r: Paginator)
        ensures
            r@.results == Seq::<NamedApiResource>::empty(),
            r@.next == Some(list_url(base@, endpoint@, limit, offset)),
            r@.autopaginate == autopaginate,
    {
        Paginator {
            results: Vec::new(),
            next_url: Some(build_list_url(base, endpoint, limit, offset)),
            autopaginate,
        }
    }

    /// Starts a walk over the Pokémon collection.
    pub fn pokemon(
        base: &str,
        limit: Option<u32>,
        offset: Option<u32>,
        autopaginate: bool,
    ) -> (r: Paginator)
        ensures
            r@.results == Seq::<NamedApiResource>::empty(),
            r@.next == Some(list_url(base@, "pokemon"@, limit, offset)),
            r@.autopaginate == autopaginate,
    {
        Paginator::new(base, "pokemon", limit, offset, autopaginate)
    }

    /// Starts a walk over the generation collection.
    pub fn generations(
        base: &str,
        limit: Option<u32>,
        offset: Option<u32>,
        autopaginate: bool,
    ) -> (r: Paginator)
        ensures
            r@.results == Seq::<NamedApiResource>::empty(),
            r@.next == Some(list_url(base@, "generation"@, limit, offset)),
            r@.autopaginate == autopaginate,
    {
        Paginator::new(base, "generation", limit, offset, autopaginate)
    }

    /// The URL to fetch next, or `None` when the walk is complete.
    pub fn current_url(&self) -> (r: Option<&String>)
        ensures
            match r {
                Some(u) => self@.next == Some(u@),
                None => self@.next is None,
            },
    {
        self.next_url.as_ref()
    }

    /// Feeds the outcome of fetching `current_url` into the walk.
    ///
    /// A transport failure, a non-success status, and an undecodable body
    /// each end the walk at once with the corresponding classified failure;
    /// nothing gathered before is handed out with a failure.  A decoded page
    /// advances the walk by `page_step`: its items are appended in order and
    /// its `next` link is followed only when autopagination is on.
    pub fn step(&mut self, outcome: PageOutcome) -> (r: Option<PokeApiError>)
        requires
            old(self)@.next is Some,
            outcome matches PageOutcome::ErrorStatus(s) ==> !spec_is_success_status(s),
        ensures
            final(self)@.autopaginate == old(self)@.autopaginate,
            match outcome {
                PageOutcome::TransportFailure(msg) => {
                    &&& r == Some(PokeApiError::RequestError(msg))
                    &&& final(self)@.results == old(self)@.results
                    &&& final(self)@.next is None
                },
                PageOutcome::ErrorStatus(status) => {
                    &&& (r matches Some(e) && e matches PokeApiError::ApiError {
                        status: s,
                        url: u,
                    } && s == status && old(self)@.next == Some(u@))
                    &&& final(self)@.results == old(self)@.results
                    &&& final(self)@.next is None
                },
                PageOutcome::Parsed(page) => {
                    &&& r is None
                    &&& final(self)@ == page_step(old(self)@, page)
                },
                PageOutcome::ParseFailure(msg) => {
                    &&& r == Some(PokeApiError::DeserializationError(msg))
                    &&& final(self)@.results == old(self)@.results
                    &&& final(self)@.next is None
                },
            },
    {
        match outcome {
            PageOutcome::TransportFailure(msg) => {
                self.next_url = None;
                Some(PokeApiError::RequestError(msg))
            },
            PageOutcome::ErrorStatus(status) => {
                let url_opt = self.next_url.take();
                let url = url_opt.unwrap();
                Some(PokeApiError::ApiError { status, url })
            },
            PageOutcome::Parsed(mut page) => {
                let ghost page0 = page;
                self.results.append(&mut page.results);
                if self.autopaginate {
                    self.next_url = page.next;
                } else {
                    self.next_url = None;
                }
                proof {
                    assert(self@ =~= page_step(old(self)@, page0));
                }
                None
            },
            PageOutcome::ParseFailure(msg) => {
                self.next_url = None;
                Some(PokeApiError::DeserializationError(msg))
            },
        }
    }

    /// Hands out the gathered items, consuming the walk.
    pub fn into_results(self) -> (r: Vec<NamedApiResource>)
        ensures
            r@ == self@.results,
    {
        self.results
    }
}

/// The state after accepting a whole sequence of pages, one `page_step` at a
/// time.
pub open spec fn page_steps(s: PaginatorView, pages: Seq<NamedApiResourceList>) -> PaginatorView
    decreases pages.len(),
{
    if pages.len() == 0 {
        s
    } else {
        page_steps(page_step(s, pages[0]), pages.drop_first())
    }
}

/// The item lists of a sequence of pages, concatenated in page order.
pub open spec fn items_of(pages: Seq<NamedApiResourceList>) -> Seq<NamedApiResource>
    decreases pages.len(),
{
    if pages.len() == 0 {
        Seq::<NamedApiResource>::empty()
    } else {
        pages[0].results@ + items_of(pages.drop_first())
    }
}

/// With autopagination off, accepting one page ends the walk — even when the
/// page carries a `next` link — and gathers exactly that page's items, so at
/// most one page is ever requested.
pub proof fn lemma_single_page_stops(s: PaginatorView, page: NamedApiResourceList)
    requires
        !s.autopaginate,
    ensures
        page_step(s, page).next is None,
        page_step(s, page).results == s.results + page.results@,
{
}

/// Round trip across two pages: when autopaginating from a fresh walk, a
/// first page whose `next` names a second URL leaves the walk pointing at
/// exactly that URL, and a second page without a `next` link ends the walk
/// holding the two item lists concatenated in that order.
pub proof fn lemma_round_trip(
    s: PaginatorView,
    p1: NamedApiResourceList,
    p2: NamedApiResourceList,
)
    requires
        s.autopaginate,
        s.results == Seq::<NamedApiResource>::empty(),
        p1.next is Some,
        p2.next is None,
    ensures
        page_step(s, p1).next == opt_str_view(p1.next),
        page_step(s, p1).next is Some,
        page_step(page_step(s, p1), p2).next is None,
        page_step(page_step(s, p1), p2).results == p1.results@ + p2.results@,
{
    assert(page_step(page_step(s, p1), p2).results =~= p1.results@ + p2.results@);
}

/// Accepting any chain of pages gathers exactly the pages' item lists,
/// concatenated in page order, after whatever was gathered before: no item
/// is dropped, duplicated, or reordered.
pub proof fn lemma_collects_every_page(s: PaginatorView, pages: Seq<NamedApiResourceList>)
    ensures
        page_steps(s, pages).results == s.results + items_of(pages),
        page_steps(s, pages).autopaginate == s.autopaginate,
    decreases pages.len(),
{
    if pages.len() == 0 {
        assert(page_steps(s, pages).results =~= s.results + items_of(pages));
    } else {
        lemma_collects_every_page(page_step(s, pages[0]), pages.drop_first());
        assert(page_steps(s, pages).results =~= s.results + items_of(pages));
    }
}

} // verus!
