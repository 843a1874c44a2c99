//! Offset pagination over an ordered result set.
use vstd::prelude::*;

verus! {

/// The page asked for, counted from 1, and the number of rows per page.
#[derive(Debug, Clone, Copy, PartialEq, Eq, Structural)]
pub struct PaginationQuery {
    pub page: u32,
    pub page_size: u32,
}

/// One page of an ordered result set.
///
/// `total` is the size of the whole set. `page` repeats the page asked for,
/// except that it is 0 when the set is empty.
#[derive(Debug, Clone)]
pub struct Page<T> {
    pub data: Vec<T>,
    pub total: u64,
    pub page: u32,
    pub page_size: u32,
}

/// Position of the first row of the page, before clamping to the set.
pub open spec fn window_start(q: PaginationQuery) -> int {
    (q.page - 1) * q.page_size
}

/// Position just past the last row of the page, before clamping to the set.
pub open spec fn window_end(q: PaginationQuery) -> int {
    q.page * q.page_size
}

pub open spec fn clamp(x: int, n: int) -> int {
    if x < n {
        x
    } else {
        n
    }
}

/// The rows of `rows` that fall on page `q`: positions
/// `[(page - 1) * page_size, page * page_size)`, clamped to the set.
pub open spec fn page_rows<T>(rows: Seq<T>, q: PaginationQuery) -> Seq<T> {
    rows.subrange(clamp(window_start(q), rows.len() as int), clamp(window_end(q), rows.len() as int))
}

/// Cuts page `query` out of `rows`, which come in the set's order.
pub fn paginate<T>(rows: Vec<T>, query: &PaginationQuery) -> (r: Page<T>)
    requires
        query.page >= 1,
        query.page_size >= 1,
    ensures
        r.data@ == page_rows(rows@, *query),
        r.total == rows@.len(),
        r.page == (if rows@.len() == 0 { 0 } else { query.page }),
        r.page_size == query.page_size,
{
    let n = rows.len();
    let total = n as u64;
    let size = query.page_size as u64;
    let before = query.page as u64 - 1;
    assert(before * size <= 0xffff_ffff * 0xffff_ffff) by (nonlinear_arith)
        requires
            before <= 0xffff_ffff,
            size <= 0xffff_ffff,
    ;
    let start = before * size;
    assert(start == window_start(*query)) by (nonlinear_arith)
        requires
            start == before * size,
            before == query.page - 1,
            size == query.page_size,
    ;
    assert(window_end(*query) == window_start(*query) + query.page_size) by (nonlinear_arith);
    let page = if n == 0 {
        0
    } else {
        query.page
    };
    if start >= total {
        let data: Vec<T> = Vec::new();
        assert(data@ =~= page_rows(rows@, *query));
        return Page { data, total, page, page_size: query.page_size };
    }
    let ghost all = rows@;
    let mut rows = rows;
    let mut data = rows.split_off(start as usize);
    let left = total - start;
    let take = if size < left {
        size
    } else {
        left
    };
    data.truncate(take as usize);
    assert(data@ =~= page_rows(all, *query));
    Page { data, total, page, page_size: query.page_size }
}

} // verus!
