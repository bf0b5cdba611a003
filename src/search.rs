//! Cursor-driven search: pages fetched one after another and merged in order.
//!
//! The search is a state machine. The caller sends each request with the
//! cursor it is given, hands back what the platform answered, and is told
//! whether to ask again, to stop with the merged results, or to give up.

use crate::error::DxError;
use vstd::prelude::*;

verus! {

/// What the platform answered to one page request.
pub enum PageOutcome<T> {
    /// A page of results, and the cursor that continues it if more exist.
    Page { results: Vec<T>, next: Option<String> },
    /// The request failed.
    Failed(DxError),
}

/// What the caller does next.
pub enum SearchStep<T> {
    /// Request another page, starting at `cursor`, and hand its outcome to `state`.
    Request { state: PagedSearch<T>, cursor: Option<String> },
    /// The search is exhausted: these are all results, in page order.
    Done(Vec<T>),
    /// A request failed: the results gathered so far are dropped.
    Failed(DxError),
}

/// A search in progress: the results of the pages received so far.
pub struct PagedSearch<T> {
    results: Vec<T>,
}

impl<T> PagedSearch<T> {
    /// The results merged so far, in page order.
    pub closed spec fn gathered(&self) -> Seq<T> {
        self.results@
    }

    /// Starts a search. The first request carries `starting` as its cursor.
    pub fn start(starting: Option<String>) -> (r: SearchStep<T>)
        ensures
            r matches SearchStep::Request { state, cursor }
                && state.gathered() == Seq::<T>::empty()
                && cursor == starting,
    {
        SearchStep::Request { state: PagedSearch { results: Vec::new() }, cursor: starting }
    }

    /// Takes the outcome of the last request. A page is appended to what came
    /// before it; a page with a cursor asks for the next one, a page without
    /// ends the search; a failure ends it with that error.
    pub fn step(self, outcome: PageOutcome<T>) -> (r: SearchStep<T>)
        ensures
            match outcome {
                PageOutcome::Failed(e) => r == SearchStep::<T>::Failed(e),
                PageOutcome::Page { results, next } => match next {
                    None => r matches SearchStep::Done(all)
                        && all@ == self.gathered() + results@,
                    Some(c) => r matches SearchStep::Request { state, cursor }
                        && state.gathered() == self.gathered() + results@
                        && cursor == Some(c),
                },
            },
    {
        match outcome {
            PageOutcome::Failed(e) => SearchStep::Failed(e),
            PageOutcome::Page { results, next } => {
                let mut all = self.results;
                let mut page = results;
                all.append(&mut page);
                match next {
                    None => SearchStep::Done(all),
                    Some(c) => SearchStep::Request {
                        state: PagedSearch { results: all },
                        cursor: Some(c),
                    },
                }
            },
        }
    }
}

} // verus!
