//! What is computed before accounts are read: the page of a listing and the
//! patterns of a search.

use crate::common::app_state::AppState;
use crate::common::error::{id_failure_message, AppError, IdFailure};
use crate::common::paging::{
    contains_pattern_of, optional_contains_pattern, page_offset, page_or_default,
    page_size_or_default, page_window, PageWindow,
};
use crate::common::snowflake::issued_under;
use crate::modules::user::models::UserQueryParams;
use vstd::prelude::*;

verus! {

/// Reading and writing of accounts.
pub struct UserRepository;

/// The identifiers under which an account's place in a department and in
/// its teams is stored.
#[derive(Debug)]
pub struct RelationIds {
    /// For the place in the department, where the account gets one.
    pub department: Option<i64>,
    /// For the places in the teams, one each, in the order of the teams.
    pub teams: Vec<i64>,
}

impl UserRepository {
    /// Draws every identifier that storing an account's relations takes,
    /// before anything is stored: one for the department where the account
    /// joins one, and one for each team. Where one of them cannot be issued
    /// none is handed out, so that nothing is stored by halves.
    pub fn draw_relation_ids(
        state: &AppState,
        joins_department: bool,
        team_count: usize,
        context: &str,
    ) -> (outcome: Result<RelationIds, IdFailure>)
        ensures
            match outcome {
                Ok(ids) => {
                    &&& ids.department is Some == joins_department
                    &&& ids.department matches Some(id) ==> issued_under(
                        id as int,
                        state.id_generator.datacenter_id(),
                        state.id_generator.machine_id(),
                        state.id_generator.epoch(),
                    )
                    &&& ids.teams@.len() == team_count
                    &&& forall|i: int|
                        0 <= i < team_count ==> issued_under(
                            #[trigger] ids.teams@[i] as int,
                            state.id_generator.datacenter_id(),
                            state.id_generator.machine_id(),
                            state.id_generator.epoch(),
                        )
                },
                Err(failure) => failure.answer matches AppError::InternalError(message)
                    && message@ == id_failure_message(),
            },
    {
        let department = if joins_department {
            match state.generate_id_for(context) {
                Ok(id) => Some(id),
                Err(failure) => {
                    return Err(failure);
                },
            }
        } else {
            None
        };
        match state.generate_ids_for(team_count, context) {
            Ok(teams) => Ok(RelationIds { department, teams }),
            Err(failure) => Err(failure),
        }
    }

    /// The part of the listing that a request asks for.
    pub fn list_window(params: &UserQueryParams) -> (window: PageWindow)
        ensures
            window.limit == page_size_or_default(params.page_size),
            window.offset == page_offset(
                page_or_default(params.page),
                page_size_or_default(params.page_size),
            ),
    {
        page_window(params.page, params.page_size)
    }

    /// The pattern that finds accounts by a part of their user name or full name, where the request filters by
    /// it.
    pub fn keyword_pattern(params: &UserQueryParams) -> (pattern: Option<String>)
        ensures
            match params.keyword {
                Some(text) => pattern matches Some(made) && made@ == contains_pattern_of(text@),
                None => pattern is None,
            },
    {
        optional_contains_pattern(&params.keyword)
    }

    /// The pattern that finds accounts by a part of their user name, where the request filters by
    /// it.
    pub fn username_pattern(params: &UserQueryParams) -> (pattern: Option<String>)
        ensures
            match params.username {
                Some(text) => pattern matches Some(made) && made@ == contains_pattern_of(text@),
                None => pattern is None,
            },
    {
        optional_contains_pattern(&params.username)
    }

    /// The pattern that finds accounts by a part of their full name, where the request filters by
    /// it.
    pub fn full_name_pattern(params: &UserQueryParams) -> (pattern: Option<String>)
        ensures
            match params.full_name {
                Some(text) => pattern matches Some(made) && made@ == contains_pattern_of(text@),
                None => pattern is None,
            },
    {
        optional_contains_pattern(&params.full_name)
    }

    /// The pattern that finds accounts by a part of their e-mail address, where the request filters by
    /// it.
    pub fn email_pattern(params: &UserQueryParams) -> (pattern: Option<String>)
        ensures
            match params.email {
                Some(text) => pattern matches Some(made) && made@ == contains_pattern_of(text@),
                None => pattern is None,
            },
    {
        optional_contains_pattern(&params.email)
    }

    /// The pattern that finds accounts by a part of their phone number, where the request filters by
    /// it.
    pub fn phone_pattern(params: &UserQueryParams) -> (pattern: Option<String>)
        ensures
            match params.phone {
                Some(text) => pattern matches Some(made) && made@ == contains_pattern_of(text@),
                None => pattern is None,
            },
    {
        optional_contains_pattern(&params.phone)
    }
}

} // verus!
