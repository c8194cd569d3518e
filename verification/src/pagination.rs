//! The pagination controller behind every paged table, and the resource
//! binder that couples a page index to an asynchronous fetch.
//!
//! The controller owns the only locally mutated state of a table: the
//! current page, the page count the server's total implies, and the page
//! size.  Navigation never leaves the range `[0, total_pages]`.
//!
//! The binder is the decision half of the fetch loop: the caller performs
//! the network call and hands the outcome back.  Its policy, stated in the
//! contracts: every fetch carries a fresh request id, only the most recent
//! request may install rows (a stale response changes nothing), the page
//! index returns to zero when the filters change, and an installed total
//! only resets the page count — the current page moves by navigation alone.

use vstd::prelude::*;

verus! {

/// Page-navigation requests a table's controls emit.
#[derive(Debug, Clone, Copy, PartialEq, Eq, Structural)]
pub enum PageNav {
    Begin,
    Prev,
    Next,
    Last,
}

/// Current page, page count and page size of one table.
///
/// `total_pages` is the greatest reachable page index: the server's total
/// record count divided (integer division) by the page size.  The display
/// numbers pages from one, so a listing of `total_pages + 1` pages is shown.
#[derive(Debug, Clone, Copy, PartialEq, Eq, Structural)]
pub struct PaginationHandler {
    pub curr: u64,
    pub total_pages: u64,
    pub page_size: u64,
}

impl PaginationHandler {
    /// A controller is well formed when its page size is positive.  The
    /// current page may stand beyond `total_pages` (a filter change can
    /// shrink the total under it); navigation then pulls it back into range.
    pub open spec fn wf(self) -> bool {
        self.page_size > 0
    }

    /// Builds a controller from its raw parts.
    pub fn new(curr: u64, total_pages: u64, page_size: u64) -> (r: Self)
        requires
            page_size > 0,
        ensures
            r == (PaginationHandler { curr, total_pages, page_size }),
            r.wf(),
    {
        PaginationHandler { curr, total_pages, page_size }
    }

    /// Builds a controller for a server-reported total, an already chosen
    /// page, and an optional page size (ten when none is given).  The chosen
    /// page stands exactly as given.
    pub fn default(total: u64, curr: u64, n_paginated: Option<u64>) -> (r: Self)
        requires
            n_paginated matches Some(n) ==> n > 0,
        ensures
            r.page_size == (match n_paginated {
                Some(n) => n,
                None => 10,
            }),
            r.total_pages == total / r.page_size,
            r.curr == curr,
            r.wf(),
    {
        let page_size: u64 = match n_paginated {
            Some(n) => n,
            None => 10,
        };
        let total_pages = total / page_size;
        PaginationHandler { curr, total_pages, page_size }
    }

    /// Jumps to the first page.
    pub fn begin(&mut self)
        ensures
            final(self).curr == 0,
            final(self).total_pages == old(self).total_pages,
            final(self).page_size == old(self).page_size,
    {
        self.curr = 0;
    }

    /// Jumps to the last page: exactly `total_pages`.
    pub fn last(&mut self)
        ensures
            final(self).curr == old(self).total_pages,
            final(self).total_pages == old(self).total_pages,
            final(self).page_size == old(self).page_size,
    {
        self.curr = self.total_pages;
    }

    /// Steps back one page, never below zero.
    pub fn prev(&mut self)
        ensures
            final(self).curr == (if old(self).curr == 0 {
                0u64
            } else {
                (old(self).curr - 1) as u64
            }),
            final(self).total_pages == old(self).total_pages,
            final(self).page_size == old(self).page_size,
    {
        if self.curr > 0 {
            self.curr = self.curr - 1;
        }
    }

    /// Steps forward one page, never past `total_pages`.
    pub fn next(&mut self)
        ensures
            final(self).curr == (if old(self).curr >= old(self).total_pages {
                old(self).total_pages
            } else {
                (old(self).curr + 1) as u64
            }),
            final(self).total_pages == old(self).total_pages,
            final(self).page_size == old(self).page_size,
    {
        if self.curr < self.total_pages {
            self.curr = self.curr + 1;
        } else {
            self.curr = self.total_pages;
        }
    }

    /// Applies one navigation request.
    pub fn navigate(&mut self, nav: PageNav)
        ensures
            final(self).curr == (match nav {
                PageNav::Begin => 0u64,
                PageNav::Prev => if old(self).curr == 0 {
                    0u64
                } else {
                    (old(self).curr - 1) as u64
                },
                PageNav::Next => if old(self).curr >= old(self).total_pages {
                    old(self).total_pages
                } else {
                    (old(self).curr + 1) as u64
                },
                PageNav::Last => old(self).total_pages,
            }),
            final(self).total_pages == old(self).total_pages,
            final(self).page_size == old(self).page_size,
            old(self).wf() ==> final(self).wf(),
    {
        match nav {
            PageNav::Begin => self.begin(),
            PageNav::Prev => self.prev(),
            PageNav::Next => self.next(),
            PageNav::Last => self.last(),
        }
    }

    /// The pair the pager footer prints: the current page and the page
    /// count, both numbered from one.
    pub fn display_position(&self) -> (r: (u64, u64))
        requires
            self.curr < u64::MAX,
            self.total_pages < u64::MAX,
        ensures
            r.0 == self.curr + 1,
            r.1 == self.total_pages + 1,
    {
        (self.curr + 1, self.total_pages + 1)
    }

    /// The record offset the current page starts at.
    pub fn offset(&self) -> (r: u64)
        requires
            self.curr * self.page_size <= u64::MAX,
        ensures
            r == self.curr * self.page_size,
    {
        proof {
            vstd::arithmetic::mul::lemma_mul_nonnegative(
                self.curr as int,
                self.page_size as int,
            );
        }
        self.curr * self.page_size
    }

    /// A controller whose page is in range and whose page count came from a
    /// server total keeps its offset within that total, so the offset
    /// arithmetic cannot overflow.
    pub proof fn lemma_offset_within_total(self, total: u64)
        requires
            self.wf(),
            self.curr <= self.total_pages,
            self.total_pages == total / self.page_size,
        ensures
            self.curr * self.page_size <= total,
    {
        vstd::arithmetic::mul::lemma_mul_inequality(
            self.curr as int,
            self.total_pages as int,
            self.page_size as int,
        );
        vstd::arithmetic::div_mod::lemma_fundamental_div_mod(total as int, self.page_size as int);
        vstd::arithmetic::mul::lemma_mul_is_commutative(
            self.total_pages as int,
            self.page_size as int,
        );
        vstd::arithmetic::div_mod::lemma_remainder_lower(total as int, self.page_size as int);
    }
}

/// One fetch the binder asks its caller to perform.
#[derive(Debug, Clone, Copy, PartialEq, Eq, Structural)]
pub struct FetchRequest {
    pub req: u64,
    pub offset: u64,
    pub limit: u64,
}

/// Couples a page of rows to the asynchronous call that loads it.
///
/// The caller drives it in a loop: `begin_fetch` hands out the offset,
/// limit and a fresh request id; when the call returns, `complete` installs
/// the rows — unless a newer fetch has started meanwhile, in which case the
/// stale outcome is dropped whole.
#[derive(Debug, Clone)]
pub struct PagedResource<T> {
    pub pager: PaginationHandler,
    pub next_req: u64,
    pub active_req: Option<u64>,
    pub rows: Option<Vec<T>>,
}

impl<T> PagedResource<T> {
    /// A binder is well formed when its pager is and every issued id is
    /// below the counter.
    pub open spec fn wf(self) -> bool {
        &&& self.pager.wf()
        &&& self.active_req matches Some(r) ==> r < self.next_req
    }

    /// A fresh binder: page zero, nothing loaded, no fetch in flight.
    pub fn new(page_size: u64) -> (r: Self)
        requires
            page_size > 0,
        ensures
            r.pager == (PaginationHandler { curr: 0u64, total_pages: 0u64, page_size }),
            r.rows is None,
            r.active_req is None,
            r.wf(),
    {
        PagedResource {
            pager: PaginationHandler { curr: 0, total_pages: 0, page_size },
            next_req: 0,
            active_req: None,
            rows: None,
        }
    }

    /// Starts a fetch for the current page: returns the offset, the limit,
    /// and a request id newer than every earlier one.  Any fetch still in
    /// flight is superseded.
    pub fn begin_fetch(&mut self) -> (r: FetchRequest)
        requires
            old(self).wf(),
            old(self).next_req < u64::MAX,
            old(self).pager.curr * old(self).pager.page_size <= u64::MAX,
        ensures
            final(self).wf(),
            r.req == old(self).next_req,
            r.offset == old(self).pager.curr * old(self).pager.page_size,
            r.limit == old(self).pager.page_size,
            final(self).active_req == Some(r.req),
            final(self).next_req == old(self).next_req + 1,
            final(self).pager == old(self).pager,
            final(self).rows == old(self).rows,
    {
        let req = self.next_req;
        self.next_req = self.next_req + 1;
        self.active_req = Some(req);
        FetchRequest { req, offset: self.pager.offset(), limit: self.pager.page_size }
    }

    /// Hands a finished fetch back.  Only the outcome of the most recent
    /// request installs: its rows replace the loaded page wholesale and the
    /// page count follows the reported total; the current page stands as it
    /// is (navigation alone moves it).  A stale or unexpected outcome
    /// changes nothing at all.
    pub fn complete(&mut self, req: u64, rows: Vec<T>, total: u64) -> (installed: bool)
        requires
            old(self).wf(),
        ensures
            final(self).wf(),
            installed == (old(self).active_req == Some(req)),
            installed ==> {
                &&& final(self).rows matches Some(r) && r@ == rows@
                &&& final(self).pager.total_pages == total / old(self).pager.page_size
                &&& final(self).pager.curr == old(self).pager.curr
                &&& final(self).pager.page_size == old(self).pager.page_size
                &&& final(self).active_req is None
                &&& final(self).next_req == old(self).next_req
            },
            !installed ==> *final(self) == *old(self),
    {
        let matches_active = match self.active_req {
            Some(a) => a == req,
            None => false,
        };
        if matches_active {
            let total_pages = total / self.pager.page_size;
            self.pager = PaginationHandler {
                curr: self.pager.curr,
                total_pages,
                page_size: self.pager.page_size,
            };
            self.rows = Some(rows);
            self.active_req = None;
            true
        } else {
            false
        }
    }

    /// Applies a pager navigation; the caller then starts a fetch for the
    /// new page.
    pub fn navigate(&mut self, nav: PageNav)
        requires
            old(self).wf(),
        ensures
            final(self).wf(),
            final(self).pager.total_pages == old(self).pager.total_pages,
            final(self).pager.page_size == old(self).pager.page_size,
            final(self).next_req == old(self).next_req,
            final(self).active_req == old(self).active_req,
            final(self).rows == old(self).rows,
    {
        self.pager.navigate(nav);
    }

    /// A filter change restarts the listing at page zero.
    pub fn reset_filters(&mut self)
        requires
            old(self).wf(),
        ensures
            final(self).wf(),
            final(self).pager.curr == 0,
            final(self).pager.total_pages == old(self).pager.total_pages,
            final(self).pager.page_size == old(self).pager.page_size,
            final(self).next_req == old(self).next_req,
            final(self).active_req == old(self).active_req,
            final(self).rows == old(self).rows,
    {
        self.pager.begin();
    }
}

} // verus!
