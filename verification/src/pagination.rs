//! Pages of query results.

use vstd::prelude::*;
use crate::ids::Keyed;

verus! {

/// A request for at most `limit` results, skipping the first `offset`.
#[derive(Clone, Copy, Debug, PartialEq, Eq, Structural)]
pub struct PageRequest {
    pub limit: usize,
    pub offset: usize,
}

impl PageRequest {
    pub fn new(limit: usize, offset: usize) -> (r: Self)
        ensures
            r.limit == limit,
            r.offset == offset,
    {
        PageRequest { limit, offset }
    }
}

/// One page of results: the items, how many results there are in all, and
/// the request the page answers.
pub struct Page<T> {
    pub items: Vec<T>,
    pub total: usize,
    pub limit: usize,
    pub offset: usize,
}

/// The number of the page that starts at `offset`, counting from 1.
pub open spec fn page_number_of(limit: usize, offset: usize) -> int {
    if limit == 0 {
        1
    } else {
        offset as int / limit as int + 1
    }
}

/// How many pages of `limit` results `total` results fill.
pub open spec fn total_pages_of(total: usize, limit: usize) -> int {
    if limit == 0 {
        0
    } else {
        total as int / limit as int + if total as int % limit as int == 0 {
            0int
        } else {
            1int
        }
    }
}

impl<T> Page<T> {
    pub fn new(items: Vec<T>, total: usize, limit: usize, offset: usize) -> (p: Self)
        ensures
            p.items@ == items@,
            p.total == total,
            p.limit == limit,
            p.offset == offset,
    {
        Page { items, total, limit, offset }
    }

    /// The number of this page, counting from 1 (a page number past
    /// `usize::MAX` cannot be returned).
    pub fn page_number(&self) -> (n: usize)
        requires
            page_number_of(self.limit, self.offset) <= usize::MAX,
        ensures
            n == page_number_of(self.limit, self.offset),
    {
        if self.limit == 0 {
            1
        } else {
            self.offset / self.limit + 1
        }
    }

    /// How many pages of `limit` results hold all `total` results: the
    /// fewest pages that do (none for a page size of zero).
    pub fn total_pages(&self) -> (n: usize)
        ensures
            n == total_pages_of(self.total, self.limit),
            self.limit > 0 ==> n * self.limit >= self.total,
            self.limit > 0 && n > 0 ==> (n - 1) * self.limit < self.total,
            self.limit == 0 ==> n == 0,
    {
        proof {
            law_total_pages_is_ceiling(self.total, self.limit);
        }
        if self.limit == 0 {
            0
        } else {
            let full = self.total / self.limit;
            if self.total % self.limit == 0 {
                full
            } else {
                assert(full < usize::MAX) by (nonlinear_arith)
                    requires
                        full == self.total / self.limit,
                        self.limit >= 2,
                        self.total <= usize::MAX,
                ;
                full + 1
            }
        }
    }

    /// Whether results remain after this page.
    pub fn has_more(&self) -> (b: bool)
        ensures
            b == (self.offset as int + self.items@.len() < self.total as int),
    {
        let n = self.items.len();
        if self.offset >= self.total {
            false
        } else {
            n < self.total - self.offset
        }
    }
}

/// The results at positions `offset .. offset + limit` of `all`.
pub open spec fn page_slice<T>(all: Seq<T>, page: PageRequest) -> Seq<T> {
    let start = if page.offset as int <= all.len() { page.offset as int } else { all.len() as int };
    let end = if start + page.limit as int <= all.len() { start + page.limit as int } else { all.len() as int };
    all.subrange(start, end)
}

/// The page of `all` that the request asks for, counting all results.
pub fn paginate<T: Keyed>(all: &Vec<T>, page: PageRequest) -> (p: Page<T>)
    ensures
        p.items@ == page_slice(all@, page),
        p.total == all@.len(),
        p.limit == page.limit,
        p.offset == page.offset,
{
    let len = all.len();
    let start = if page.offset <= len { page.offset } else { len };
    let end = if page.limit <= len - start { start + page.limit } else { len };
    let mut items: Vec<T> = Vec::new();
    let mut i = start;
    while i < end
        invariant
            len == all@.len(),
            start <= i <= end <= len,
            items@ == all@.subrange(start as int, i as int),
        decreases end - i,
    {
        items.push(all[i].duplicate());
        assert(all@.subrange(start as int, i as int + 1) =~= all@.subrange(start as int, i as int).push(
            all@[i as int],
        ));
        i = i + 1;
    }
    Page::new(items, len, page.limit, page.offset)
}

/// Paging through results a page at a time from the first: a page has more
/// results after it exactly when it is not the last page.
pub proof fn law_has_more_iff_not_last_page<T>(all: Seq<T>, page: PageRequest)
    requires
        page.limit > 0,
        page.offset % page.limit == 0,
        page.offset < all.len(),
        all.len() <= usize::MAX,
    ensures
        (page.offset + page_slice(all, page).len() < all.len()) <==> page_number_of(
            page.limit,
            page.offset,
        ) < total_pages_of(all.len() as usize, page.limit),
{
    let l = page.limit as int;
    let o = page.offset as int;
    let t = all.len() as int;
    let k = o / l;
    let q = t / l;
    let r = t % l;
    assert(o == k * l) by (nonlinear_arith)
        requires
            k == o / l,
            o % l == 0,
            l > 0,
    ;
    assert(t == q * l + r && 0 <= r < l) by (nonlinear_arith)
        requires
            q == t / l,
            r == t % l,
            l > 0,
    ;
    assert(page_slice(all, page).len() == if o + l <= t { l } else { t - o });
    if r == 0 {
        assert((k + 1) * l < t <==> k + 1 < q) by (nonlinear_arith)
            requires
                t == q * l,
                l > 0,
        ;
    } else {
        assert((k + 1) * l < t <==> k + 1 < q + 1) by (nonlinear_arith)
            requires
                t == q * l + r,
                0 < r < l,
                l > 0,
        ;
    }
    assert((k + 1) * l == o + l) by (nonlinear_arith)
        requires
            o == k * l,
    ;
}

/// Two consecutive pages of one answer neither overlap nor leave a gap: put
/// together they are the page of twice the size that starts where the first
/// one starts.
pub proof fn law_consecutive_pages_join<T>(all: Seq<T>, limit: usize, offset: usize)
    requires
        offset + 2 * limit <= usize::MAX,
    ensures
        page_slice(all, PageRequest { limit, offset }) + page_slice(
            all,
            PageRequest { limit, offset: (offset + limit) as usize },
        ) == page_slice(all, PageRequest { limit: (2 * limit) as usize, offset }),
{
    let a = page_slice(all, PageRequest { limit, offset });
    let b = page_slice(all, PageRequest { limit, offset: (offset + limit) as usize });
    let c = page_slice(all, PageRequest { limit: (2 * limit) as usize, offset });
    assert(a + b =~= c);
}

/// With a positive page size, the number of pages is the least number of
/// pages of `limit` results that hold `total` results: they hold them all, and
/// one page fewer would not. A non-empty answer that fits in one page has
/// exactly one page.
pub proof fn law_total_pages_is_ceiling(total: usize, limit: usize)
    ensures
        limit > 0 ==> total_pages_of(total, limit) * limit >= total,
        limit > 0 && total_pages_of(total, limit) > 0 ==> (total_pages_of(total, limit) - 1) * limit
            < total,
        limit > 0 && 0 < total <= limit ==> total_pages_of(total, limit) == 1,
        total_pages_of(total, limit) >= 0,
{
    if limit > 0 {
        let t = total as int;
        let l = limit as int;
        let q = t / l;
        let r = t % l;
        assert(t == q * l + r && 0 <= r < l && q >= 0) by (nonlinear_arith)
            requires
                q == t / l,
                r == t % l,
                l > 0,
                t >= 0,
        ;
        let n = total_pages_of(total, limit);
        if r == 0 {
            assert(n == q);
            assert(n * l >= t && (n > 0 ==> (n - 1) * l < t)) by (nonlinear_arith)
                requires
                    n == q,
                    t == q * l,
                    l > 0,
                    q >= 0,
            ;
        } else {
            assert(n == q + 1);
            assert(n * l >= t && (n - 1) * l < t) by (nonlinear_arith)
                requires
                    n == q + 1,
                    t == q * l + r,
                    0 < r < l,
                    l > 0,
            ;
        }
        if 0 < t <= l {
            assert(n == 1) by (nonlinear_arith)
                requires
                    n * l >= t,
                    n > 0 ==> (n - 1) * l < t,
                    0 < t <= l,
                    n >= 0,
            ;
        }
    }
}

} // verus!
