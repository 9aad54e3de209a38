//! Ready-made `meta` payloads for the common cases, usable as the `M` type of
//! an [`ApiResponse`](crate::response::ApiResponse).

use vstd::prelude::*;

verus! {

/// Pagination metadata. `total_pages` is derived from `total` and `per_page` by
/// [`Pagination::new`]; build the struct directly for custom values.
#[derive(Debug, Clone, Copy, Default, PartialEq, Eq, Structural)]
pub struct Pagination {
    /// 1-based index of the current page.
    pub page: u64,
    /// Number of items requested per page.
    pub per_page: u64,
    /// Total number of items across all pages.
    pub total: u64,
    /// Total number of pages, `ceil(total / per_page)`.
    pub total_pages: u64,
}

/// The number of pages `total` items fill at `per_page` items each:
/// `ceil(total / per_page)`, and `0` when `per_page` is `0`.
pub open spec fn pages_for(total: nat, per_page: nat) -> nat {
    if per_page == 0 {
        0
    } else {
        ((total + per_page - 1) / per_page as int) as nat
    }
}

impl Pagination {
    /// Build pagination metadata, computing `total_pages` as
    /// `ceil(total / per_page)` (`0` when `per_page` is `0`).
    pub fn new(page: u64, per_page: u64, total: u64) -> (r: Self)
        ensures
            r == (Pagination { page, per_page, total, total_pages: pages_for(total as nat, per_page as nat) as u64 }),
    {
        let total_pages = if per_page == 0 {
            0
        } else {
            let whole = total / per_page;
            let rest = total % per_page;
            proof {
                lemma_ceil_parts(total as int, per_page as int);
            }
            if rest == 0 {
                whole
            } else {
                whole + 1
            }
        };
        Pagination { page, per_page, total, total_pages }
    }
}

/// `ceil(t / n)` from the quotient and remainder of `t / n`.
proof fn lemma_ceil_parts(t: int, n: int)
    requires
        0 <= t,
        0 < n,
    ensures
        (t + n - 1) / n == t / n + (if t % n == 0 { 0int } else { 1int }),
        t / n <= t,
        t % n != 0 ==> t / n < t,
{
    assert((t + n - 1) / n == t / n + (if t % n == 0 { 0int } else { 1int })) by (nonlinear_arith)
        requires
            0 <= t,
            0 < n,
    {
        let q = t / n;
        let r = t % n;
        assert(t == q * n + r);
        assert(0 <= r < n);
        if r == 0 {
            assert(t + n - 1 == q * n + (n - 1));
        } else {
            assert(t + n - 1 == (q + 1) * n + (r - 1));
        }
    }
    assert(t / n <= t && (t % n != 0 ==> t / n < t)) by (nonlinear_arith)
        requires
            0 <= t,
            0 < n,
    {
        let q = t / n;
        let r = t % n;
        assert(t == q * n + r);
        assert(0 <= r < n);
        if r != 0 {
            assert(n >= 2);
            assert(q * n >= q * 2);
        }
    }
}

/// The page count is the least number of pages that holds every item: the
/// pages hold at least `total` items, and one page fewer would not.
pub proof fn lemma_pages_cover_total(total: nat, per_page: nat)
    requires
        per_page > 0,
    ensures
        pages_for(total, per_page) * per_page >= total,
        pages_for(total, per_page) > 0 ==> (pages_for(total, per_page) - 1) * per_page < total,
        total == 0 ==> pages_for(total, per_page) == 0,
{
    let p = pages_for(total, per_page);
    let t = total as int;
    let n = per_page as int;
    assert(p * n >= t && (p > 0 ==> (p - 1) * n < t) && (t == 0 ==> p == 0)) by (nonlinear_arith)
        requires
            p == (t + n - 1) / n,
            0 <= t,
            0 < n,
    {
        let q = (t + n - 1) / n;
        let r = (t + n - 1) % n;
        assert(t + n - 1 == q * n + r);
        assert(0 <= r < n);
    }
}

/// Rate-limit metadata, mirroring the `RateLimit-*` response headers.
#[derive(Debug, Clone, Copy, Default, PartialEq, Eq, Structural)]
pub struct RateLimit {
    /// Maximum number of requests allowed in the window.
    pub limit: u64,
    /// Requests remaining in the current window.
    pub remaining: u64,
    /// Unix timestamp (seconds) when the window resets.
    pub reset: u64,
}

impl RateLimit {
    /// Rate-limit metadata from its three values.
    pub fn new(limit: u64, remaining: u64, reset: u64) -> (r: Self)
        ensures
            r == (RateLimit { limit, remaining, reset }),
    {
        RateLimit { limit, remaining, reset }
    }
}

} // verus!
