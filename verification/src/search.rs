//! The query that a listing of companies is searched with.

use vstd::prelude::*;
use vstd::arithmetic::div_mod::{lemma_div_pos_is_pos, lemma_fundamental_div_mod, lemma_mod_bound};

verus! {

/// A search over companies: an optional name to look for and an optional
/// page of the results.
#[derive(Debug)]
pub struct SearchQuery {
    pub name: Option<String>,
    pub page: Option<i64>,
}

impl Default for SearchQuery {
    /// Any name, first page.
    fn default() -> (query: SearchQuery)
        ensures
            query.name.is_none(),
            query.page == Some(1i64),
    {
        SearchQuery { name: None, page: Some(1) }
    }
}

/// The page that a query asks for: the page it names where that is the
/// first or a later one, and the first page otherwise.
pub open spec fn page_asked(page: Option<i64>) -> int {
    match page {
        Some(p) => if p >= 1 {
            p as int
        } else {
            1
        },
        None => 1,
    }
}

/// How many pages `total` rows fill at `per_page` rows a page: none where
/// there are no rows or no rows fit a page, and otherwise the one number of
/// pages whose last page is neither empty nor overfull.
pub open spec fn is_page_count(total: int, per_page: int, pages: int) -> bool {
    if total <= 0 || per_page <= 0 {
        pages == 0
    } else {
        (pages - 1) * per_page < total <= pages * per_page
    }
}

/// Counts the pages that `total` rows fill at `per_page` rows a page.
pub fn total_pages(total: i64, per_page: u32) -> (pages: i64)
    ensures
        is_page_count(total as int, per_page as int, pages as int),
{
    if total <= 0 || per_page == 0 {
        0
    } else {
        let size: i64 = per_page as i64;
        let full: i64 = (total - 1) / size;
        proof {
            let rows = (total - 1) as int;
            lemma_fundamental_div_mod(rows, size as int);
            lemma_mod_bound(rows, size as int);
            lemma_div_pos_is_pos(rows, size as int);
            assert(full * size == size * full) by (nonlinear_arith);
            assert((full + 1) * size == full * size + size) by (nonlinear_arith);
        }
        full + 1
    }
}

/// The text that `format!` gives for `"{:?}, {:?}"` with a name and a page:
/// the two `Debug` renderings, the name's with its quotes and escapes,
/// separated by a comma and a space.
pub uninterp spec fn debug_rendering(name: Option<Seq<char>>, page: Option<i64>) -> Seq<char>;

/// Renders a name and a page with `format!` and the `Debug` formatting of
/// both. The result is a function of the two values alone; it is named, not
/// spelled out.
#[verifier::external_body]
fn render(name: &Option<String>, page: &Option<i64>) -> (text: String)
    ensures
        text@ == debug_rendering(name.deep_view(), *page),
{
    format!("{:?}, {:?}", name, page)
}

impl SearchQuery {
    /// The page asked for, counted from one.
    pub fn page_number(&self) -> (page: i64)
        ensures
            page == page_asked(self.page),
    {
        match self.page {
            Some(p) => if p >= 1 {
                p
            } else {
                1
            },
            None => 1,
        }
    }

    /// How many rows come before the page asked for, at `per_page` rows a
    /// page; `None` where that number does not fit.
    pub fn offset(&self, per_page: u32) -> (rows: Option<i64>)
        ensures
            (page_asked(self.page) - 1) * per_page <= i64::MAX ==> rows == Some(
                ((page_asked(self.page) - 1) * per_page) as i64,
            ),
            (page_asked(self.page) - 1) * per_page > i64::MAX ==> rows.is_none(),
    {
        let before: i64 = self.page_number() - 1;
        assert(0 <= before * per_page <= 0x7fff_ffff_ffff_ffff * 0xffff_ffff) by (nonlinear_arith)
            requires
                0 <= before <= 0x7fff_ffff_ffff_ffff,
                0 <= per_page <= 0xffff_ffff,
        ;
        let rows: i128 = (before as i128) * (per_page as i128);
        if rows > i64::MAX as i128 {
            None
        } else {
            Some(rows as i64)
        }
    }

    /// The query as one line of text, for a log.
    pub fn describe(&self) -> (text: String)
        ensures
            text@ == debug_rendering(self.name.deep_view(), self.page),
    {
        render(&self.name, &self.page)
    }
}

} // verus!
