//! Paginated response bodies and the one-extra-row pagination rule.

use vstd::prelude::*;

verus! {

/// One page of results together with whether a further page exists.
#[derive(Debug, Clone)]
pub struct PagedResponse<T> {
    pub items: Vec<T>,
    pub has_next: bool,
}

impl<T> PagedResponse<T> {
    /// A page carrying exactly the given items and flag.
    pub fn new(items: Vec<T>, has_next: bool) -> (r: Self)
        ensures
            r.items == items,
            r.has_next == has_next,
    {
        Self { items, has_next }
    }
}

/// One page from the rows fetched with one extra row: a further page
/// exists exactly when more than `page_size` rows came back, and the
/// page holds the first `page_size` of them.
pub fn page_from_rows<T>(rows: Vec<T>, page_size: usize) -> (r: PagedResponse<T>)
    ensures
        r.has_next == (rows@.len() > page_size),
        r.has_next ==> r.items@ == rows@.subrange(0, page_size as int),
        !r.has_next ==> r.items@ == rows@,
{
    let mut rows = rows;
    let has_next = rows.len() > page_size;
    if has_next {
        rows.truncate(page_size);
    }
    PagedResponse { items: rows, has_next }
}

} // verus!
