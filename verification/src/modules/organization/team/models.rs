//! What clients send to manage teams.

use crate::common::id::Id;
use vstd::prelude::*;

verus! {

/// A new team.
#[derive(Debug)]
pub struct CreateTeamParams {
    pub team_name: String,
    pub description: Option<String>,
}

/// Changes to a team. An absent field is left as it is.
#[derive(Debug)]
pub struct UpdateTeamParams {
    pub team_name: Option<String>,
    pub description: Option<String>,
}

/// Filter and page of a listing of teams.
#[derive(Debug)]
pub struct TeamQueryParams {
    pub page: Option<i64>,
    pub page_size: Option<i64>,
    pub team_name: Option<String>,
}

/// The teams to delete in one request.
#[derive(Debug)]
pub struct BatchDeleteTeamsParams {
    pub ids: Vec<Id>,
}

} // verus!
