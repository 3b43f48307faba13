//! Paging of the lists that protected operations show.
use vstd::prelude::*;
use vstd::arithmetic::div_mod::{lemma_fundamental_div_mod, lemma_fundamental_div_mod_converse};

verus! {

/// A page of a list: its index from zero and how many items a page holds.
#[derive(Clone, Copy, Debug, PartialEq, Eq, Structural)]
pub struct PageRequest {
    pub index: usize,
    pub size: usize,
}

/// The page that a query asks for. Pages are counted from 1 and default to
/// the first; the page size defaults to `default_size`. Page 0 and a page
/// size of 0 are refused.
pub fn page_request(page: Option<usize>, size: Option<usize>, default_size: usize) -> (r: Option<
    PageRequest,
>)
    ensures
        r is Some <==> (page.unwrap_or(1) >= 1 && size.unwrap_or(default_size) >= 1),
        r is Some ==> r->0.index == page.unwrap_or(1) - 1,
        r is Some ==> r->0.size == size.unwrap_or(default_size),
{
    let page = match page {
        Some(p) => p,
        None => 1,
    };
    let size = match size {
        Some(s) => s,
        None => default_size,
    };
    if page == 0 || size == 0 {
        None
    } else {
        Some(PageRequest { index: page - 1, size })
    }
}

/// How many pages of `size` items `total` items fill.
pub fn page_count(total: u64, size: u64) -> (r: u64)
    requires
        size > 0,
    ensures
        r == (total + size - 1) / size as int,
{
    let whole = total / size;
    let rest = total % size;
    proof {
        lemma_fundamental_div_mod(total as int, size as int);
        assert(total as int == size * whole + rest);
        assert(whole * size == size * whole) by (nonlinear_arith);
    }
    if rest == 0 {
        proof {
            lemma_fundamental_div_mod_converse(
                total + size - 1,
                size as int,
                whole as int,
                size - 1,
            );
        }
        whole
    } else {
        proof {
            assert(whole * size <= total) by (nonlinear_arith)
                requires
                    total as int == whole * size + rest,
                    rest >= 0,
            ;
            assert(whole < total) by (nonlinear_arith)
                requires
                    whole * size <= total,
                    size >= 2,
                    total > 0,
            ;
            assert(total + size - 1 == (whole + 1) * size + (rest - 1)) by (nonlinear_arith)
                requires
                    total as int == whole * size + rest,
            ;
            lemma_fundamental_div_mod_converse(
                total + size - 1,
                size as int,
                whole + 1,
                rest - 1,
            );
        }
        whole + 1
    }
}

} // verus!
