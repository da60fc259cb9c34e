//! Page numbers and page sizes, and the window of rows that they select.

use vstd::prelude::*;
use crate::error::ReportError;

verus! {

/// The page size where none is asked for.
pub const FETCH_LIMIT_DEFAULT: i64 = 10;

/// The largest page size that may be asked for.
pub const FETCH_LIMIT_MAX: i64 = 50;

/// A page number is valid when it is absent or at least 1. A page number
/// below 1 is rejected, never raised to 1.
pub open spec fn valid_page(page: Option<i64>) -> bool {
    page matches Some(p) ==> p >= 1
}

/// A page size is valid when it is absent or between 1 and the maximum.
pub open spec fn valid_limit(limit: Option<i64>) -> bool {
    limit matches Some(l) ==> 1 <= l <= FETCH_LIMIT_MAX
}

/// The page size in force: the one asked for, else the default.
pub open spec fn limit_for(limit: Option<i64>) -> int {
    match limit {
        Some(l) => l as int,
        None => FETCH_LIMIT_DEFAULT as int,
    }
}

/// The number of rows that precede the page: full pages before it, none
/// where no page is asked for.
pub open spec fn offset_for(page: Option<i64>, limit: Option<i64>) -> int {
    match page {
        Some(p) => (p - 1) * limit_for(limit),
        None => 0,
    }
}

/// The page size and the offset for a page number and a page size as a
/// caller supplied them. Both are exact: the offset of the last page number
/// with the largest page size still fits.
pub fn limit_and_offset(page: Option<i64>, limit: Option<i64>) -> (r: Result<
    (u64, u128),
    ReportError,
>)
    ensures
        match r {
            Ok((l, o)) => valid_page(page) && valid_limit(limit) && l == limit_for(limit) && o
                == offset_for(page, limit),
            Err(e) => e == ReportError::InvalidArgument && !(valid_page(page) && valid_limit(
                limit,
            )),
        },
{
    let page: i64 = match page {
        Some(p) => {
            if p < 1 {
                return Err(ReportError::InvalidArgument);
            }
            p
        },
        None => 1,
    };
    let limit: i64 = match limit {
        Some(l) => {
            if l < 1 || l > FETCH_LIMIT_MAX {
                return Err(ReportError::InvalidArgument);
            }
            l
        },
        None => FETCH_LIMIT_DEFAULT,
    };
    let pages_before: u128 = (page - 1) as u128;
    let size: u128 = limit as u128;
    assert(pages_before * size <= 0x7fff_ffff_ffff_ffff * 50) by (nonlinear_arith)
        requires
            0 <= pages_before <= 0x7fff_ffff_ffff_ffff,
            0 <= size <= 50,
    ;
    Ok((limit as u64, pages_before * size))
}

/// The window of `rows` that starts after `offset` rows and holds at most
/// `limit` rows. A window that starts at or after the end is empty.
pub open spec fn page_of<T>(rows: Seq<T>, limit: u64, offset: u128) -> Seq<T> {
    let lo: int = if offset < rows.len() {
        offset as int
    } else {
        rows.len() as int
    };
    let hi: int = if lo + limit < rows.len() {
        lo + limit
    } else {
        rows.len() as int
    };
    rows.subrange(lo, hi)
}

/// Cuts `rows` down to its window.
pub fn take_page<T>(rows: Vec<T>, limit: u64, offset: u128) -> (page: Vec<T>)
    ensures
        page@ == page_of(rows@, limit, offset),
{
    let ghost whole = rows@;
    let mut rows = rows;
    let n: usize = rows.len();
    let lo: usize = if offset < n as u128 {
        offset as usize
    } else {
        n
    };
    let hi: usize = if limit < (n - lo) as u64 {
        lo + limit as usize
    } else {
        n
    };
    rows.truncate(hi);
    let page = rows.split_off(lo);
    assert(page@ =~= whole.subrange(lo as int, hi as int));
    page
}

/// What the window holds: row `k` of the window is row `offset + k` of the
/// whole, and a window that starts at or after the end is empty.
pub proof fn lemma_page_of<T>(rows: Seq<T>, limit: u64, offset: u128)
    ensures
        offset >= rows.len() ==> page_of(rows, limit, offset).len() == 0,
        offset < rows.len() ==> page_of(rows, limit, offset).len() == if offset + limit
            < rows.len() {
            limit as int
        } else {
            rows.len() - offset
        },
        forall|k: int|
            0 <= k < page_of(rows, limit, offset).len() ==> #[trigger] page_of(
                rows,
                limit,
                offset,
            )[k] == rows[offset + k],
{
}

} // verus!
