//! What is computed before departments are read or written: the page of a
//! listing, the pattern of a search, and the statement of an update.

use crate::common::paging::{
    contains_pattern_of, optional_contains_pattern, page_offset, page_or_default,
    page_size_or_default, page_window, PageWindow,
};
use crate::common::sql::{chosen_fields, plan_update, update_text, Candidate, UpdatePlan};
use crate::modules::organization::department::models::{
    DepartmentQueryParams, UpdateDepartmentParams,
};
use vstd::prelude::*;

verus! {

/// Reading and writing of departments.
pub struct DepartmentRepository;

/// A column of a department that a request may change.
#[derive(Debug, Clone, Copy, PartialEq, Eq, Structural)]
pub enum DepartmentField {
    DepartmentName,
    Description,
}

/// Which columns of a department a request names.
#[derive(Debug, Clone, Copy, PartialEq, Eq, Structural)]
pub struct DepartmentChanges {
    pub department_name: bool,
    pub description: bool,
}

/// How the statement that changes a department begins.
pub const UPDATE_DEPARTMENT_HEAD: &'static str = "UPDATE departments SET ";

/// What follows the assignments: the time of the change and the condition on
/// the row.
pub const UPDATE_DEPARTMENT_STAMP: &'static str = ", update_date_time = NOW() WHERE id = ";

/// How the statement ends: the columns it hands back.
pub const UPDATE_DEPARTMENT_TAIL: &'static str =
    " RETURNING id, department_name, description, creator_id, updater_id, \
     create_date_time, update_date_time";

/// The columns of a department in the order of the statement.
pub open spec fn department_candidates(changes: DepartmentChanges) -> Seq<Candidate<DepartmentField>> {
    seq![
        Candidate {
            field: DepartmentField::DepartmentName,
            column: "department_name",
            present: changes.department_name,
        },
        Candidate {
            field: DepartmentField::Description,
            column: "description",
            present: changes.description,
        },
    ]
}

impl DepartmentRepository {
    /// The part of the listing that a request asks for.
    pub fn list_window(params: &DepartmentQueryParams) -> (window: PageWindow)
        ensures
            window.limit == page_size_or_default(params.page_size),
            window.offset == page_offset(
                page_or_default(params.page),
                page_size_or_default(params.page_size),
            ),
    {
        page_window(params.page, params.page_size)
    }

    /// The pattern that finds departments by a part of their name, where the request filters by
    /// it.
    pub fn department_name_pattern(params: &DepartmentQueryParams) -> (pattern: Option<String>)
        ensures
            match params.department_name {
                Some(text) => pattern matches Some(made) && made@ == contains_pattern_of(text@),
                None => pattern is None,
            },
    {
        optional_contains_pattern(&params.department_name)
    }

    /// Which columns an update of a department names.
    pub fn changes_of(params: &UpdateDepartmentParams) -> (changes: DepartmentChanges)
        ensures
            changes.department_name == params.department_name is Some,
            changes.description == params.description is Some,
    {
        DepartmentChanges {
            department_name: params.department_name.is_some(),
            description: params.description.is_some(),
        }
    }

    /// The statement that changes the columns of a department that a request
    /// names.
    pub fn update_department_plan(changes: &DepartmentChanges) -> (plan: UpdatePlan<DepartmentField>)
        ensures
            plan.fields@ == chosen_fields(department_candidates(*changes)),
            plan.sql@ == update_text(
                UPDATE_DEPARTMENT_HEAD@,
                department_candidates(*changes),
                UPDATE_DEPARTMENT_STAMP@,
                UPDATE_DEPARTMENT_TAIL@,
            ),
    {
        let mut candidates: Vec<Candidate<DepartmentField>> = Vec::new();
        candidates.push(
            Candidate {
                field: DepartmentField::DepartmentName,
                column: "department_name",
                present: changes.department_name,
            },
        );
        candidates.push(
            Candidate {
                field: DepartmentField::Description,
                column: "description",
                present: changes.description,
            },
        );
        assert(candidates@ =~= department_candidates(*changes));
        plan_update(UPDATE_DEPARTMENT_HEAD, &candidates, UPDATE_DEPARTMENT_STAMP, UPDATE_DEPARTMENT_TAIL)
    }
}

} // verus!
