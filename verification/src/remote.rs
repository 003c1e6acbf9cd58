//! Shared plumbing of the remote sync providers: the sentinel errors a
//! provider surfaces, the mapping of raw HTTP outcomes onto them, the page
//! shape every provider returns, and the pagination loop that buffers pages.

use std::time::Duration;
use vstd::prelude::*;

use crate::text::{decimal, join_strings, joined, push_decimal, push_str, string_of, views};

verus! {

/// Sentinel error shared across sync providers, wrapping the provider's own
/// `E` for anything this crate cannot classify.
#[derive(Debug)]
pub enum RemoteError<E> {
    /// The remote demanded a retry, optionally with a `Retry-After` duration.
    RateLimited { retry_after: Option<Duration> },
    /// The remote returned 401.
    Unauthorized,
    /// A remote-side failure that has no more specific sentinel.
    Remote(String),
    /// Pagination carried a cursor this crate cannot handle.
    PaginationCursorInvalid,
    /// Some pages were fetched before a mid-stream failure.
    PartialResults,
    /// The response was filtered/truncated by the remote, not by us.
    ContentFiltered,
    /// The response did not match the expected schema.
    SchemaMismatch(String),
    /// Anything the provider itself raised.
    Provider(E),
}

/// The message of the `Remote` sentinel for a bare HTTP status.
pub open spec fn http_status_message(status: u16) -> Seq<char> {
    "HTTP "@ + decimal(status as nat)
}

/// Map an HTTP response onto a [`RemoteError`] sentinel.
///
/// GraphQL errors are handled before status dispatch: any of them yields
/// `Remote` with the messages joined by `"; "`. Otherwise 2xx → `Ok`;
/// 401 → `Unauthorized`; 429 → `RateLimited` carrying `retry_after`; 403 and
/// every other status → `Remote("HTTP {status}")`.
pub fn map_response_error<E>(
    status: u16,
    retry_after: Option<Duration>,
    graphql_errors: &[String],
) -> (r: Result<(), RemoteError<E>>)
    ensures
        graphql_errors@.len() > 0 ==> (r matches Err(RemoteError::Remote(m)) && m@ == joined(
            views(graphql_errors@),
            "; "@,
        )),
        graphql_errors@.len() == 0 && 200 <= status <= 299 ==> r is Ok,
        graphql_errors@.len() == 0 && status == 401 ==> r matches Err(RemoteError::Unauthorized),
        graphql_errors@.len() == 0 && status == 429 ==> (r matches Err(
            RemoteError::RateLimited { retry_after: ra },
        ) && ra == retry_after),
        graphql_errors@.len() == 0 && !(200 <= status <= 299) && status != 401 && status != 429
            ==> (r matches Err(RemoteError::Remote(m)) && m@ == http_status_message(status)),
{
    if graphql_errors.len() == 0 {
        if 200 <= status && status <= 299 {
            Ok(())
        } else if status == 401 {
            Err(RemoteError::Unauthorized)
        } else if status == 429 {
            Err(RemoteError::RateLimited { retry_after })
        } else {
            let mut msg: Vec<char> = Vec::new();
            push_str(&mut msg, "HTTP ");
            push_decimal(&mut msg, status as u128);
            Err(RemoteError::Remote(string_of(msg.as_slice())))
        }
    } else {
        let msg = join_strings(graphql_errors, "; ");
        Err(RemoteError::Remote(string_of(msg.as_slice())))
    }
}

} // verus!

verus! {

/// One page of remote items and the pagination cursor that follows it.
///
/// - `items` are the fetched records for this page.
/// - `end_cursor` is the cursor to send on the next request.
/// - `has_next_page` tells whether more pages remain.
#[derive(Debug, Clone, PartialEq, Eq)]
pub struct Page<T> {
    pub items: Vec<T>,
    pub end_cursor: Option<String>,
    pub has_next_page: bool,
}

impl<T> Page<T> {
    /// An empty, terminal page (`has_next_page == false`).
    pub fn empty() -> (p: Self)
        ensures
            p.items@.len() == 0,
            p.end_cursor is None,
            !p.has_next_page,
    {
        Page { items: Vec::new(), end_cursor: None, has_next_page: false }
    }
}

/// Result of a full pagination pass.
///
/// `items` holds every fetched record (empty when only a terminal page was
/// returned). `end_cursor` is the accumulated cursor passed to the last
/// fetch, which the provider may persist as its resume point.
#[derive(Debug)]
pub struct SyncResult<Item> {
    pub items: Vec<Item>,
    pub end_cursor: Option<String>,
}

impl<Item> Default for SyncResult<Item> {
    fn default() -> (r: Self)
        ensures
            r.items@.len() == 0,
            r.end_cursor is None,
    {
        SyncResult { items: Vec::new(), end_cursor: None }
    }
}

/// Drives a provider client through all pages, buffering the results. The
/// fetching itself is asynchronous and lives with the client; each fetched
/// page is handed to a [`Pagination`], which decides how the pass goes on.
pub struct SyncLoop<C> {
    client: C,
}

impl<C> SyncLoop<C> {
    /// The client this loop wraps.
    pub closed spec fn wrapped(&self) -> C {
        self.client
    }

    /// Wrap a provider client.
    pub fn new(client: C) -> (r: Self)
        ensures
            r.wrapped() == client,
    {
        SyncLoop { client }
    }

    /// The wrapped client.
    pub fn client(&self) -> (c: &C)
        ensures
            *c == self.wrapped(),
    {
        &self.client
    }
}

/// What a pagination pass does after one fetch.
#[derive(Debug)]
pub enum PageStep<E> {
    /// Fetch the next page, with the cursor now held by the pagination.
    Continue,
    /// The last page has been buffered; the pass succeeded.
    Done,
    /// The pass failed; the buffer is to be discarded.
    Failed(RemoteError<E>),
}

/// The state of one pagination pass: the buffered items, the cursor for the
/// next request, and whether any page has been fetched yet.
pub struct Pagination<T> {
    pub items: Vec<T>,
    pub after: Option<String>,
    pub fetched_any: bool,
}

impl<T> Pagination<T> {
    /// A pass that has fetched nothing: no items, no cursor.
    pub fn new() -> (r: Self)
        ensures
            r.items@.len() == 0,
            r.after is None,
            !r.fetched_any,
    {
        Pagination { items: Vec::new(), after: None, fetched_any: false }
    }

    /// Feed the outcome of one `fetch_page` into the pass.
    ///
    /// A failed fetch surfaces the provider's error when it was the first
    /// fetch and `PartialResults` otherwise. A page is appended to the
    /// buffer; a page that declares `has_next_page` without an `end_cursor`
    /// fails with `PaginationCursorInvalid`; one that declares more pages
    /// with a cursor continues from that cursor; the last page ends the pass.
    pub fn step<E>(&mut self, fetched: Result<Page<T>, E>) -> (r: PageStep<E>)
        ensures
            match fetched {
                Err(e) => {
                    &&& *final(self) == *old(self)
                    &&& old(self).fetched_any ==> (r matches PageStep::Failed(
                        RemoteError::PartialResults,
                    ))
                    &&& !old(self).fetched_any ==> (r matches PageStep::Failed(
                        RemoteError::Provider(pe),
                    ) && pe == e)
                },
                Ok(page) => {
                    &&& final(self).items@ == old(self).items@ + page.items@
                    &&& final(self).fetched_any
                    &&& !page.has_next_page ==> (r is Done && final(self).after == old(
                        self,
                    ).after)
                    &&& page.has_next_page && page.end_cursor is None ==> (r matches PageStep::Failed(
                        RemoteError::PaginationCursorInvalid,
                    ) && final(self).after == old(self).after)
                    &&& page.has_next_page && page.end_cursor is Some ==> (r is Continue
                        && final(self).after == page.end_cursor)
                },
            },
    {
        match fetched {
            Err(e) => {
                if self.fetched_any {
                    PageStep::Failed(RemoteError::PartialResults)
                } else {
                    PageStep::Failed(RemoteError::Provider(e))
                }
            },
            Ok(page) => {
                self.fetched_any = true;
                let Page { items, end_cursor, has_next_page } = page;
                let mut items = items;
                self.items.append(&mut items);
                if has_next_page {
                    match end_cursor {
                        Some(c) => {
                            self.after = Some(c);
                            PageStep::Continue
                        },
                        None => PageStep::Failed(RemoteError::PaginationCursorInvalid),
                    }
                } else {
                    PageStep::Done
                }
            },
        }
    }

    /// The result of a pass that ended with `Done`: every buffered item and
    /// the accumulated cursor.
    pub fn finish(self) -> (r: SyncResult<T>)
        ensures
            r.items@ == self.items@,
            r.end_cursor == self.after,
    {
        SyncResult { items: self.items, end_cursor: self.after }
    }
}

} // verus!
