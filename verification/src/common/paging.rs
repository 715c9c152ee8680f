//! Pages of a listing and patterns of a search.

use vstd::prelude::*;
use vstd::string::StringExecFns;

verus! {

/// The page shown where a request names none.
pub const DEFAULT_PAGE: i64 = 1;

/// The number of entries on a page where a request names none.
pub const DEFAULT_PAGE_SIZE: i64 = 10;

/// The part of a listing that a page shows: `limit` entries after the first
/// `offset`.
#[derive(Debug, Clone, Copy, PartialEq, Eq, Structural)]
pub struct PageWindow {
    pub limit: i64,
    pub offset: i64,
}

/// The page asked for, or the first one.
pub open spec fn page_or_default(page: Option<i64>) -> i64 {
    match page {
        Some(page) => page,
        None => DEFAULT_PAGE,
    }
}

/// The page size asked for, or ten.
pub open spec fn page_size_or_default(page_size: Option<i64>) -> i64 {
    match page_size {
        Some(page_size) => page_size,
        None => DEFAULT_PAGE_SIZE,
    }
}

/// The entries that stand before a page: the pages before it times the size
/// of a page, kept to 64 bits.
pub open spec fn page_offset(page: i64, page_size: i64) -> i64 {
    page.wrapping_sub(1).wrapping_mul(page_size)
}

/// Where the pages before a page hold no more entries than a 64-bit number
/// counts, the offset is their number of entries.
pub proof fn lemma_page_offset_exact(page: i64, page_size: i64)
    requires
        i64::MIN <= (page - 1) * page_size <= i64::MAX,
        page > i64::MIN,
    ensures
        page_offset(page, page_size) == (page - 1) * page_size,
{
}

/// The window of a listing that a request asks for. Pages count from 1.
pub fn page_window(page: Option<i64>, page_size: Option<i64>) -> (window: PageWindow)
    ensures
        window.limit == page_size_or_default(page_size),
        window.offset == page_offset(page_or_default(page), page_size_or_default(page_size)),
{
    let page: i64 = match page {
        Some(page) => page,
        None => DEFAULT_PAGE,
    };
    let page_size: i64 = match page_size {
        Some(page_size) => page_size,
        None => DEFAULT_PAGE_SIZE,
    };
    PageWindow { limit: page_size, offset: page.wrapping_sub(1).wrapping_mul(page_size) }
}

/// The pattern that matches every text that holds `text` somewhere.
pub open spec fn contains_pattern_of(text: Seq<char>) -> Seq<char> {
    "%"@ + text + "%"@
}

/// The pattern that matches every text that holds `text` somewhere.
pub fn contains_pattern(text: &str) -> (pattern: String)
    ensures
        pattern@ == contains_pattern_of(text@),
{
    String::from_str("%").concat(text).concat("%")
}

/// The pattern of an optional search text; no text, no pattern.
pub fn optional_contains_pattern(text: &Option<String>) -> (pattern: Option<String>)
    ensures
        match *text {
            Some(text) => pattern matches Some(made) && made@ == contains_pattern_of(text@),
            None => pattern is None,
        },
{
    match text {
        Some(text) => Some(contains_pattern(text.as_str())),
        None => None,
    }
}

} // verus!
