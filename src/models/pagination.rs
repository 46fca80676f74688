//! Pages over rows ordered by key: which rows a page asks for, and whether rows
//! lie before and after it.

use vstd::prelude::*;

verus! {

/// Why a page cannot be taken.
#[derive(Clone, Copy, Debug, PartialEq, Eq)]
pub enum PageError {
    /// The page size is negative.
    NegativePageSize,
}

/// A request for at most `limit` rows in key order: those with a key above
/// `after_key`, or from the first row where it is `None`.
#[derive(Clone, Copy, Debug, PartialEq, Eq)]
pub struct PageRequest {
    pub after_key: Option<i32>,
    pub limit: i64,
}

/// The request for `first` rows after `after_key`, or why there is none.
pub open spec fn request_for(after_key: Option<i32>, first: i32) -> Result<PageRequest, PageError> {
    if first < 0 {
        Err(PageError::NegativePageSize)
    } else {
        Ok(PageRequest { after_key, limit: first as i64 })
    }
}

impl PageRequest {
    /// The request for `first` rows after the row with key `after_key`.
    pub fn new(after_key: Option<i32>, first: i32) -> (r: Result<PageRequest, PageError>)
        ensures
            r == request_for(after_key, first),
    {
        if first < 0 {
            Err(PageError::NegativePageSize)
        } else {
            Ok(PageRequest { after_key, limit: first as i64 })
        }
    }
}

/// Whether rows follow a page: the rows before it and on it are fewer than all rows.
pub open spec fn next_page_exists(rows_before: int, returned: int, total: int) -> bool {
    rows_before + returned < total
}

/// Whether rows precede a page.
pub open spec fn previous_page_exists(rows_before: int) -> bool {
    rows_before > 0
}

/// Whether rows follow a page of `returned` rows with `rows_before` rows before it,
/// out of `total` rows.
pub fn has_next_page(rows_before: i64, returned: usize, total: i64) -> (r: bool)
    ensures
        r == next_page_exists(rows_before as int, returned as int, total as int),
{
    (rows_before as i128) + (returned as i128) < total as i128
}

/// Whether rows precede a page with `rows_before` rows before it.
pub fn has_previous_page(rows_before: i64) -> (r: bool)
    ensures
        r == previous_page_exists(rows_before as int),
{
    rows_before > 0
}

/// How many of `total` rows a page of at most `limit` rows holds when `rows_before`
/// rows precede it.
pub open spec fn rows_on_page(total: int, rows_before: int, limit: int) -> int {
    if total <= rows_before {
        0
    } else if total - rows_before < limit {
        total - rows_before
    } else {
        limit
    }
}

/// A full page has rows after it exactly when the rows extend past its end: with
/// `rows_before` rows before it and as many rows on it as the total leaves, rows
/// follow it exactly when more than `rows_before + limit` rows exist.
pub proof fn lemma_next_page_past_window(total: int, rows_before: int, limit: int)
    requires
        total >= 0,
        rows_before >= 0,
        limit >= 0,
    ensures
        next_page_exists(rows_before, rows_on_page(total, rows_before, limit), total) == (total
            > rows_before + limit),
{
}

} // verus!
