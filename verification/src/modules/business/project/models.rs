//! What clients send to manage projects in bulk.

use crate::common::id::Id;
use vstd::prelude::*;

verus! {

/// The projects to delete in one request.
#[derive(Debug)]
pub struct BatchDeleteProjectsParams {
    pub ids: Vec<Id>,
}

/// The projects in the order in which they are to be shown.
#[derive(Debug)]
pub struct ReorderProjectsParams {
    pub project_ids: Vec<Id>,
}

} // verus!
