//! What is computed before projects are read or written: the page of a
//! listing, the pattern of a search, and the statement of an update.

use crate::common::paging::{
    contains_pattern_of, optional_contains_pattern, page_offset, page_or_default,
    page_size_or_default, page_window, PageWindow,
};
use crate::common::sql::{chosen_fields, plan_update, update_text, Candidate, UpdatePlan};
use vstd::prelude::*;

verus! {

/// Reading and writing of projects.
pub struct ProjectRepository;

/// A column of a project that a request may change.
#[derive(Debug, Clone, Copy, PartialEq, Eq, Structural)]
pub enum ProjectField {
    ProjectName,
    Description,
    StartDateTime,
    EndDateTime,
    ProjectStatus,
    Version,
    Order,
}

/// Which columns of a project a request names.
#[derive(Debug, Clone, Copy, PartialEq, Eq, Structural)]
pub struct ProjectChanges {
    pub project_name: bool,
    pub description: bool,
    pub start_date_time: bool,
    pub end_date_time: bool,
    pub project_status: bool,
    pub version: bool,
    pub order: bool,
}

/// How the statement that changes a project begins.
pub const UPDATE_PROJECT_HEAD: &'static str = "UPDATE projects SET ";

/// What follows the assignments: the time of the change and the condition on
/// the row.
pub const UPDATE_PROJECT_STAMP: &'static str = ", update_date_time = CURRENT_TIMESTAMP WHERE id = ";

/// How the statement ends: the columns it hands back.
pub const UPDATE_PROJECT_TAIL: &'static str =
    " RETURNING id, project_name, description, start_date_time, end_date_time, \
     project_status, version, \"order\", creator_id, updater_id, create_date_time, \
     update_date_time";

/// The columns of a project in the order of the statement.
pub open spec fn project_candidates(changes: ProjectChanges) -> Seq<Candidate<ProjectField>> {
    seq![
        Candidate {
            field: ProjectField::ProjectName,
            column: "project_name",
            present: changes.project_name,
        },
        Candidate {
            field: ProjectField::Description,
            column: "description",
            present: changes.description,
        },
        Candidate {
            field: ProjectField::StartDateTime,
            column: "start_date_time",
            present: changes.start_date_time,
        },
        Candidate {
            field: ProjectField::EndDateTime,
            column: "end_date_time",
            present: changes.end_date_time,
        },
        Candidate {
            field: ProjectField::ProjectStatus,
            column: "project_status",
            present: changes.project_status,
        },
        Candidate {
            field: ProjectField::Version,
            column: "version",
            present: changes.version,
        },
        Candidate {
            field: ProjectField::Order,
            column: "\"order\"",
            present: changes.order,
        },
    ]
}

impl ProjectRepository {
    /// The part of the listing that a request asks for.
    pub fn list_window(page: Option<i64>, page_size: Option<i64>) -> (window: PageWindow)
        ensures
            window.limit == page_size_or_default(page_size),
            window.offset == page_offset(page_or_default(page), page_size_or_default(page_size)),
    {
        page_window(page, page_size)
    }

    /// The pattern that finds projects by a part of their name, where the
    /// request filters by it.
    pub fn project_name_pattern(project_name: &Option<String>) -> (pattern: Option<String>)
        ensures
            match *project_name {
                Some(text) => pattern matches Some(made) && made@ == contains_pattern_of(text@),
                None => pattern is None,
            },
    {
        optional_contains_pattern(project_name)
    }

    /// The statement that changes the columns of a project that a request
    /// names.
    pub fn update_project_plan(changes: &ProjectChanges) -> (plan: UpdatePlan<ProjectField>)
        ensures
            plan.fields@ == chosen_fields(project_candidates(*changes)),
            plan.sql@ == update_text(
                UPDATE_PROJECT_HEAD@,
                project_candidates(*changes),
                UPDATE_PROJECT_STAMP@,
                UPDATE_PROJECT_TAIL@,
            ),
    {
        let mut candidates: Vec<Candidate<ProjectField>> = Vec::new();
        candidates.push(
            Candidate {
                field: ProjectField::ProjectName,
                column: "project_name",
                present: changes.project_name,
            },
        );
        candidates.push(
            Candidate {
                field: ProjectField::Description,
                column: "description",
                present: changes.description,
            },
        );
        candidates.push(
            Candidate {
                field: ProjectField::StartDateTime,
                column: "start_date_time",
                present: changes.start_date_time,
            },
        );
        candidates.push(
            Candidate {
                field: ProjectField::EndDateTime,
                column: "end_date_time",
                present: changes.end_date_time,
            },
        );
        candidates.push(
            Candidate {
                field: ProjectField::ProjectStatus,
                column: "project_status",
                present: changes.project_status,
            },
        );
        candidates.push(
            Candidate {
                field: ProjectField::Version,
                column: "version",
                present: changes.version,
            },
        );
        candidates.push(
            Candidate {
                field: ProjectField::Order,
                column: "\"order\"",
                present: changes.order,
            },
        );
        assert(candidates@ =~= project_candidates(*changes));
        plan_update(UPDATE_PROJECT_HEAD, &candidates, UPDATE_PROJECT_STAMP, UPDATE_PROJECT_TAIL)
    }

    /// Whether a request that names projects names any project at all;
    /// without one nothing is sent to the database.
    pub fn names_any(project_ids: &Vec<i64>) -> (any: bool)
        ensures
            any == (project_ids@.len() > 0),
    {
        project_ids.len() > 0
    }
}

} // verus!
