//! Paging of list requests: which documents a page holds and how many pages
//! a listing has.

use vstd::prelude::*;
use crate::query::QueryParams;
use crate::text::{parse_i64, parsed_i64};

verus! {

/// Where a page starts, how many documents it holds at most, and how many
/// pages the whole listing has.
#[derive(Debug, PartialEq, Eq, Structural, Clone, Copy)]
pub struct Paging {
    pub skip: i64,
    pub limit: i64,
    pub total_page: i64,
}

/// `a / b` as Rust computes it on integers (rounding toward zero), for a
/// non-negative `a`.
pub open spec fn quotient(a: int, b: int) -> int {
    if b > 0 {
        a / b
    } else {
        -(a / (-b))
    }
}

/// `a % b` as Rust computes it on integers, for a non-negative `a`.
pub open spec fn remainder(a: int, b: int) -> int {
    if b > 0 {
        a % b
    } else {
        a % (-b)
    }
}

/// The number of pages: `total / size`, one more where `total % size > 0`.
pub open spec fn page_count(total: int, size: int) -> int {
    quotient(total, size) + if remainder(total, size) > 0 {
        1int
    } else {
        0int
    }
}

/// The paging of the zero-based page `page` of `size` documents out of
/// `total`; `None` where the computation fails (a size of zero, or a start
/// that does not fit in an `i64`).
pub open spec fn paging_of(page: int, size: int, total: int) -> Option<Paging> {
    if size == 0 {
        None
    } else {
        let skip = page * size;
        if i64::MIN <= skip && skip <= i64::MAX {
            Some(
                Paging {
                    skip: skip as i64,
                    limit: size as i64,
                    total_page: page_count(total, size) as i64,
                },
            )
        } else {
            None
        }
    }
}

proof fn lemma_quotient_remainder(a: int, b: int)
    requires
        a >= 0,
        b != 0,
    ensures
        quotient(a, b) == (if a == 0 {
            0
        } else if b > 0 {
            a / b
        } else {
            (a / (b * -1)) * -1
        }),
        remainder(a, b) == (if a == 0 {
            0
        } else if b > 0 {
            a % b
        } else {
            a % (b * -1)
        }),
        -a <= quotient(a, b) <= a,
        remainder(a, b) >= 0,
        remainder(a, b) > 0 ==> -a < quotient(a, b) < a,
{
    let c = if b > 0 { b } else { -b };
    let q = a / c;
    let r = a % c;
    assert(a == q * c + r && 0 <= r < c && 0 <= q <= a) by (nonlinear_arith)
        requires
            a >= 0,
            c > 0,
            q == a / c,
            r == a % c,
    ;
    if r > 0 {
        assert(q < a) by (nonlinear_arith)
            requires
                a == q * c + r,
                r > 0,
                c > 0,
                q >= 0,
                r < c,
        ;
    }
    if a == 0 {
        assert(q == 0 && r == 0) by (nonlinear_arith)
            requires
                a == q * c + r,
                0 <= r < c,
                q >= 0,
                a == 0,
        ;
    }
}

/// The paging of the zero-based page `page` of `size` documents out of
/// `total` documents.
pub fn paging_for(page: i64, size: i64, total: i64) -> (res: Option<Paging>)
    requires
        total >= 0,
    ensures
        res == paging_of(page as int, size as int, total as int),
{
    let q = match total.checked_div(size) {
        Some(q) => q,
        None => {
            return None;
        },
    };
    let r = match total.checked_rem(size) {
        Some(r) => r,
        None => {
            return None;
        },
    };
    proof {
        lemma_quotient_remainder(total as int, size as int);
        assert(q == quotient(total as int, size as int));
        assert(r == remainder(total as int, size as int));
    }
    let total_page: i64 = if r > 0 {
        q + 1
    } else {
        q
    };
    match page.checked_mul(size) {
        Some(skip) => Some(Paging { skip, limit: size, total_page }),
        None => None,
    }
}

/// A number parameter of the query: the value parsed where the key is
/// present (`None` where it does not parse), else the default.
pub open spec fn query_number(q: Map<Seq<char>, Seq<char>>, key: Seq<char>, default: i64) -> Option<
    i64,
> {
    if q.contains_key(key) {
        parsed_i64(q[key])
    } else {
        Some(default)
    }
}

/// The paging that the `page` (one-based, 1 by default) and `size`
/// (`default_size` by default) parameters ask for.
pub open spec fn query_paging(
    q: Map<Seq<char>, Seq<char>>,
    total: int,
    default_size: i64,
) -> Option<Paging> {
    match (query_number(q, "page"@, 1), query_number(q, "size"@, default_size)) {
        (Some(p), Some(s)) => if p - 1 >= i64::MIN {
            paging_of(p - 1, s as int, total)
        } else {
            None
        },
        _ => None,
    }
}

/// Reads a number parameter from the query.
pub fn query_number_of(query: &QueryParams, key: &str, default: i64) -> (res: Option<i64>)
    ensures
        res == query_number(query@, key@, default),
{
    match query.get(key) {
        Some(v) => parse_i64(v.as_str()),
        None => Some(default),
    }
}

/// The paging that a list request's `page` and `size` parameters ask for;
/// `None` where the request handler of a listing fails on them (a number
/// that does not parse, a size of zero, a page or start out of range).
pub fn paging_from_query(query: &QueryParams, total: i64, default_size: i64) -> (res: Option<
    Paging,
>)
    requires
        total >= 0,
    ensures
        res == query_paging(query@, total as int, default_size),
{
    let page = match query_number_of(query, "page", 1) {
        Some(p) => p,
        None => {
            return None;
        },
    };
    let size = match query_number_of(query, "size", default_size) {
        Some(s) => s,
        None => {
            return None;
        },
    };
    match page.checked_sub(1) {
        Some(p) => paging_for(p, size, total),
        None => None,
    }
}

/// Every document of a listing falls on one of its pages, and the last
/// page is not empty: with a positive page size, the pages hold at least
/// `total` documents, and one page fewer would hold fewer than `total`.
pub proof fn lemma_pages_cover_total(total: int, size: int)
    requires
        total >= 0,
        size > 0,
    ensures
        page_count(total, size) * size >= total,
        total > 0 ==> (page_count(total, size) - 1) * size < total,
        total == 0 ==> page_count(total, size) == 0,
{
    let q = total / size;
    let r = total % size;
    assert(total == q * size + r && 0 <= r < size) by (nonlinear_arith)
        requires
            size > 0,
            q == total / size,
            r == total % size,
    ;
    if r > 0 {
        assert((q + 1) * size == q * size + size) by (nonlinear_arith);
    } else {
        assert((q - 1) * size == q * size - size) by (nonlinear_arith);
    }
    if total == 0 {
        assert(q == 0 && r == 0) by (nonlinear_arith)
            requires
                total == 0,
                size > 0,
                q == total / size,
                r == total % size,
        ;
    }
}

} // verus!
