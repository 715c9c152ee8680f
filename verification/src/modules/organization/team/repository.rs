//! What is computed before teams are read: the page of a listing and the
//! pattern of a search.

use crate::common::paging::{
    contains_pattern_of, optional_contains_pattern, page_offset, page_or_default,
    page_size_or_default, page_window, PageWindow,
};
use crate::modules::organization::team::models::TeamQueryParams;
use vstd::prelude::*;

verus! {

/// Reading and writing of teams.
pub struct TeamRepository;

impl TeamRepository {
    /// The part of the listing that a request asks for.
    pub fn list_window(params: &TeamQueryParams) -> (window: PageWindow)
        ensures
            window.limit == page_size_or_default(params.page_size),
            window.offset == page_offset(
                page_or_default(params.page),
                page_size_or_default(params.page_size),
            ),
    {
        page_window(params.page, params.page_size)
    }

    /// The pattern that finds teams by a part of their name, where the request filters by
    /// it.
    pub fn team_name_pattern(params: &TeamQueryParams) -> (pattern: Option<String>)
        ensures
            match params.team_name {
                Some(text) => pattern matches Some(made) && made@ == contains_pattern_of(text@),
                None => pattern is None,
            },
    {
        optional_contains_pattern(&params.team_name)
    }
}

} // verus!
