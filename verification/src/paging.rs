//! Pages of a list: skip `page * page_size` items, then take up to
//! `page_size`.
use vstd::prelude::*;

verus! {

/// The page `page` of `s` with pages of `size` items (possibly short or empty).
pub open spec fn page_of<A>(s: Seq<A>, page: int, size: int) -> Seq<A> {
    let start = if page * size < s.len() { page * size } else { s.len() as int };
    let end = if start + size < s.len() { start + size } else { s.len() as int };
    s.subrange(start, end)
}

/// Keeps the page `page` of a list, with pages of `page_size` items.
pub fn paginate<T>(v: Vec<T>, page: u32, page_size: u32) -> (r: Vec<T>)
    requires
        page as int * page_size as int <= u32::MAX,
    ensures
        r@ == page_of(v@, page as int, page_size as int),
{
    let mut v = v;
    let skip: u32 = page * page_size;
    let start: usize = if (skip as usize) < v.len() { skip as usize } else { v.len() };
    let mut rest = v.split_off(start);
    rest.truncate(page_size as usize);
    rest
}

/// A page holds at most `size` items, each of them an item of the list at
/// the page's offset.
pub proof fn lemma_page_bounds<A>(s: Seq<A>, page: int, size: int)
    requires
        page >= 0,
        size >= 0,
    ensures
        page_of(s, page, size).len() <= size,
        forall|i: int| 0 <= i < page_of(s, page, size).len() ==> #[trigger] page_of(s, page, size)[i] == s[page * size + i],
{
    assert(page * size >= 0) by (nonlinear_arith)
        requires page >= 0, size >= 0;
}

/// Consecutive pages follow each other: the first item of page `page + 1` is
/// the item after the last of page `page`, when there is one.
pub proof fn lemma_pages_consecutive<A>(s: Seq<A>, page: int, size: int)
    requires
        page >= 0,
        size > 0,
        (page + 1) * size < s.len(),
    ensures
        page_of(s, page, size).len() == size,
        page_of(s, page + 1, size)[0] == s[page * size + size],
{
    assert((page + 1) * size == page * size + size) by (nonlinear_arith);
    assert(page * size >= 0) by (nonlinear_arith)
        requires page >= 0, size > 0;
}

} // verus!
