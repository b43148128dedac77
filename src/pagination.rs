//! Offset/limit windowing shared by every list view.
use vstd::prelude::*;

verus! {

/// A navigation request from a pagination control.
#[derive(Clone, Copy, Debug, PartialEq, Eq, Structural)]
pub enum Navigation {
    First,
    Last,
    Previous,
    Next,
    /// Jump to the page with this zero-based number.
    Page(usize),
}

/// The offset a navigation leads to from `offset` with page size `limit`,
/// when the total number of entries is `total` (if known).
///
/// `Last` goes to the start of the page holding the last entry; with no known
/// total it falls back to the first page. `Previous` stops at zero.
pub open spec fn next_offset_spec(nav: Navigation, offset: int, limit: int, total: Option<usize>) -> int {
    match nav {
        Navigation::First => 0,
        Navigation::Last => {
            let t: int = match total {
                Some(t) => t as int,
                None => 0,
            };
            if t == 0 {
                0
            } else {
                ((t - 1) / limit) * limit
            }
        },
        Navigation::Previous => if offset >= limit {
            offset - limit
        } else {
            0
        },
        Navigation::Next => offset + limit,
        Navigation::Page(n) => n * limit,
    }
}

/// Whether the offset `nav` leads to fits in a `usize`.
pub open spec fn fits(nav: Navigation, offset: int, limit: int) -> bool {
    match nav {
        Navigation::Next => offset + limit <= usize::MAX,
        Navigation::Page(n) => n * limit <= usize::MAX,
        _ => true,
    }
}

/// The offset that a navigation leads to.
pub fn next_offset(nav: Navigation, offset: usize, limit: usize, total: Option<usize>) -> (r: usize)
    requires
        limit > 0,
        fits(nav, offset as int, limit as int),
    ensures
        r == next_offset_spec(nav, offset as int, limit as int, total),
{
    match nav {
        Navigation::First => 0,
        Navigation::Last => {
            let t: usize = match total {
                Some(t) => t,
                None => 0,
            };
            if t == 0 {
                0
            } else {
                let pages: usize = (t - 1) / limit;
                assert(pages * limit <= t - 1) by (nonlinear_arith)
                    requires
                        pages as int == (t as int - 1) / (limit as int),
                        limit > 0,
                        t >= 1,
                ;
                pages * limit
            }
        },
        Navigation::Previous => {
            if offset >= limit {
                offset - limit
            } else {
                0
            }
        },
        Navigation::Next => offset + limit,
        Navigation::Page(n) => n * limit,
    }
}

/// Going to the first page always leads to offset 0, going to the next page
/// adds one page size, and going to the previous page never leads below 0:
/// from an offset smaller than a page it stops at 0.
pub proof fn lemma_navigation_laws(offset: usize, limit: usize, total: Option<usize>)
    requires
        limit > 0,
    ensures
        next_offset_spec(Navigation::First, offset as int, limit as int, total) == 0,
        next_offset_spec(Navigation::Next, offset as int, limit as int, total) == offset + limit,
        next_offset_spec(Navigation::Previous, offset as int, limit as int, total) >= 0,
        offset < limit ==> next_offset_spec(Navigation::Previous, offset as int, limit as int, total)
            == 0,
        offset >= limit ==> next_offset_spec(Navigation::Previous, offset as int, limit as int, total)
            == offset - limit,
{
}

/// What a list fetch is keyed by. A response is shown only while its key is
/// still the window's current one.
#[derive(Clone, Copy, Debug, PartialEq, Eq, Structural)]
pub struct FetchKey {
    pub limit: usize,
    pub offset: usize,
}

/// The window of a paginated list: where it starts, how many entries a page
/// holds, and the total number of entries when the server reports it.
#[derive(Clone, Copy, Debug, PartialEq, Eq, Structural)]
pub struct PaginationWindow {
    pub offset: usize,
    pub limit: usize,
    pub total_entries: Option<usize>,
}

/// The page size a list view starts with.
pub const DEFAULT_LIMIT: usize = 10;

impl PaginationWindow {
    /// A page always holds at least one entry.
    pub open spec fn wf(&self) -> bool {
        self.limit > 0
    }

    pub open spec fn key_spec(&self) -> FetchKey {
        FetchKey { limit: self.limit, offset: self.offset }
    }

    /// The window a list view mounts with: offset 0, ten entries, no total.
    pub fn new() -> (r: PaginationWindow)
        ensures
            r.wf(),
            r.offset == 0,
            r.limit == DEFAULT_LIMIT,
            r.total_entries is None,
    {
        PaginationWindow { offset: 0, limit: DEFAULT_LIMIT, total_entries: None }
    }

    /// Moves the window and returns the key of the fetch this triggers.
    pub fn navigate(&mut self, nav: Navigation) -> (r: FetchKey)
        requires
            old(self).wf(),
            fits(nav, old(self).offset as int, old(self).limit as int),
        ensures
            final(self).wf(),
            final(self).offset == next_offset_spec(
                nav,
                old(self).offset as int,
                old(self).limit as int,
                old(self).total_entries,
            ),
            final(self).limit == old(self).limit,
            final(self).total_entries == old(self).total_entries,
            r == final(self).key_spec(),
    {
        self.offset = next_offset(nav, self.offset, self.limit, self.total_entries);
        self.fetch_key()
    }

    /// Changes the page size. The offset is kept as it is; a window that now
    /// lies past the end is for the fetch to notice.
    pub fn change_limit(&mut self, limit: usize) -> (r: FetchKey)
        requires
            limit > 0,
        ensures
            final(self).wf(),
            final(self).limit == limit,
            final(self).offset == old(self).offset,
            final(self).total_entries == old(self).total_entries,
            r == final(self).key_spec(),
    {
        self.limit = limit;
        self.fetch_key()
    }

    /// Records the total number of entries, when the server reports one.
    pub fn set_total_entries(&mut self, total: Option<usize>)
        ensures
            *final(self) == (PaginationWindow { total_entries: total, ..*old(self) }),
    {
        self.total_entries = total;
    }

    /// The key of the fetch for the current window.
    pub fn fetch_key(&self) -> (r: FetchKey)
        ensures
            r == self.key_spec(),
    {
        FetchKey { limit: self.limit, offset: self.offset }
    }

    /// Whether a response fetched under `key` is for the current window; a
    /// response for any other key is stale and is dropped.
    pub fn accepts(&self, key: FetchKey) -> (r: bool)
        ensures
            r == (key == self.key_spec()),
    {
        key.limit == self.limit && key.offset == self.offset
    }
}

} // verus!
