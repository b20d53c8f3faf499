//! Pages of a listing.

use vstd::prelude::*;

verus! {

/// The page shown when a request names none.
pub const DEFAULT_PAGE: usize = 1;

/// The number of entries on a page when a request names none.
pub const DEFAULT_LIMIT: usize = 10;

/// The part of a listing that a page covers: how many entries it holds at
/// most, and how many entries stand before it.
#[derive(Debug, Clone, Copy, PartialEq, Eq, Structural)]
pub struct Window {
    pub limit: i64,
    pub offset: i64,
}

/// The window of page `page` (counted from one) of `limit` entries each, or
/// `None` where there is no such page or its bounds cannot be written.
pub open spec fn window_of(page: int, limit: int) -> Option<Window> {
    if page >= 1 && 0 <= limit <= i64::MAX && (page - 1) * limit <= i64::MAX {
        Some(Window { limit: limit as i64, offset: ((page - 1) * limit) as i64 })
    } else {
        None
    }
}

/// The page and the number of entries to use for a request that may name
/// neither.
pub fn page_and_limit(page: Option<usize>, limit: Option<usize>) -> (r: (usize, usize))
    ensures
        r.0 == (match page {
            Some(p) => p,
            None => DEFAULT_PAGE,
        }),
        r.1 == (match limit {
            Some(l) => l,
            None => DEFAULT_LIMIT,
        }),
{
    let p = match page {
        Some(p) => p,
        None => DEFAULT_PAGE,
    };
    let l = match limit {
        Some(l) => l,
        None => DEFAULT_LIMIT,
    };
    (p, l)
}

/// The window of page `page` of `limit` entries each.
pub fn window(page: usize, limit: usize) -> (r: Option<Window>)
    ensures
        r == window_of(page as int, limit as int),
{
    if page < 1 {
        return None;
    }
    if limit as u64 > i64::MAX as u64 {
        return None;
    }
    let before: u64 = (page - 1) as u64;
    match before.checked_mul(limit as u64) {
        Some(offset) => {
            if offset > i64::MAX as u64 {
                None
            } else {
                Some(Window { limit: limit as i64, offset: offset as i64 })
            }
        },
        None => {
            assert((page - 1) * limit > i64::MAX);
            None
        },
    }
}

} // verus!
