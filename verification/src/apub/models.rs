pub mod activities;
pub mod actor;

use vstd::prelude::*;

verus! {

/// Maps the empty string to `None` and keeps every other string.
pub fn empty_string_or_none(value: String) -> (r: Option<String>)
    ensures
        value@.len() == 0 ==> r is None,
        value@.len() != 0 ==> r == Some(value),
{
    if value.as_str().is_empty() {
        None
    } else {
        Some(value)
    }
}

/// The page that a request for a collection asks for, if it asks for one.
#[derive(Debug, PartialEq, Eq)]
pub struct PagedCollection {
    page: Option<i64>,
}

impl PagedCollection {
    pub closed spec fn page(&self) -> Option<i64> {
        self.page
    }

    pub fn new(page: Option<i64>) -> (r: PagedCollection)
        ensures
            r.page() == page,
    {
        PagedCollection { page }
    }

    pub fn is_paged(&self) -> (r: bool)
        ensures
            r == self.page() is Some,
    {
        self.page.is_some()
    }

    /// Whether items are left after this page: more than `page_size` times
    /// the page number. Without a page there is no next one.
    pub fn has_next(&self, total_items: i64, page_size: i64) -> (r: bool)
        ensures
            r == match self.page() {
                None => false,
                Some(page) => total_items > page_size * page,
            },
    {
        match self.page {
            None => false,
            Some(page) => {
                let size: i128 = page_size as i128;
                let number: i128 = page as i128;
                assert(-0x8000_0000_0000_0000 * 0x8000_0000_0000_0000 <= size * number
                    <= 0x8000_0000_0000_0000 * 0x8000_0000_0000_0000) by (nonlinear_arith)
                    requires
                        -0x8000_0000_0000_0000 <= size < 0x8000_0000_0000_0000,
                        -0x8000_0000_0000_0000 <= number < 0x8000_0000_0000_0000,
                ;
                (total_items as i128) > size * number
            },
        }
    }

    pub fn has_prev(&self) -> (r: bool)
        ensures
            r == match self.page() {
                None => false,
                Some(page) => page > 1,
            },
    {
        match self.page {
            None => false,
            Some(page) => page > 1,
        }
    }

    pub fn next_page_number(&self) -> (r: i64)
        requires
            self.page() matches Some(page) ==> page < i64::MAX,
        ensures
            r == match self.page() {
                None => 0,
                Some(page) => page + 1,
            },
    {
        match self.page {
            None => 0,
            Some(page) => page + 1,
        }
    }

    pub fn prev_page_number(&self) -> (r: i64)
        requires
            self.page() matches Some(page) ==> page > i64::MIN,
        ensures
            r == match self.page() {
                None => 0,
                Some(page) => page - 1,
            },
    {
        match self.page {
            None => 0,
            Some(page) => page - 1,
        }
    }

    pub fn page_number(&self) -> (r: i64)
        ensures
            r == match self.page() {
                None => 0,
                Some(page) => page,
            },
    {
        match self.page {
            None => 0,
            Some(page) => page,
        }
    }
}

} // verus!
