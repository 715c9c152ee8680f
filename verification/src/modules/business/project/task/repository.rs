//! What is computed before tasks and attribute definitions are read or
//! written: the page of a listing, the pattern of a search, and the
//! statement of an update.

use crate::common::paging::{
    contains_pattern_of, optional_contains_pattern, page_offset, page_or_default,
    page_size_or_default, page_window, PageWindow,
};
use crate::common::sql::{chosen_fields, plan_update, update_text, Candidate, UpdatePlan};
use crate::modules::business::project::task::models::TaskQueryParams;
use vstd::prelude::*;

verus! {

/// Reading and writing of tasks and attribute definitions.
pub struct TaskRepository;

/// A column of a task that a request may change.
#[derive(Debug, Clone, Copy, PartialEq, Eq, Structural)]
pub enum TaskField {
    TaskName,
    ParentId,
    Order,
    StartDateTime,
    EndDateTime,
    TaskType,
    CustomAttributes,
}

/// Which columns of a task a request names.
#[derive(Debug, Clone, Copy, PartialEq, Eq, Structural)]
pub struct TaskChanges {
    pub task_name: bool,
    pub parent_id: bool,
    pub order: bool,
    pub start_date_time: bool,
    pub end_date_time: bool,
    pub task_type: bool,
    pub custom_attributes: bool,
}

/// How the statement that changes a task begins.
pub const UPDATE_TASK_HEAD: &'static str = "UPDATE project_tasks SET ";

/// What follows the assignments: the time of the change and the condition on
/// the row.
pub const UPDATE_TASK_STAMP: &'static str = ", update_date_time = CURRENT_TIMESTAMP WHERE id = ";

/// How the statement ends: the columns it hands back.
pub const UPDATE_TASK_TAIL: &'static str =
    " RETURNING id, task_name, parent_id, project_id, \"order\", \
     custom_attributes, start_date_time, end_date_time, task_type, creator_id, \
     updater_id, create_date_time, update_date_time";

/// The columns of a task in the order of the statement.
pub open spec fn task_candidates(changes: TaskChanges) -> Seq<Candidate<TaskField>> {
    seq![
        Candidate {
            field: TaskField::TaskName,
            column: "task_name",
            present: changes.task_name,
        },
        Candidate {
            field: TaskField::ParentId,
            column: "parent_id",
            present: changes.parent_id,
        },
        Candidate {
            field: TaskField::Order,
            column: "\"order\"",
            present: changes.order,
        },
        Candidate {
            field: TaskField::StartDateTime,
            column: "start_date_time",
            present: changes.start_date_time,
        },
        Candidate {
            field: TaskField::EndDateTime,
            column: "end_date_time",
            present: changes.end_date_time,
        },
        Candidate {
            field: TaskField::TaskType,
            column: "task_type",
            present: changes.task_type,
        },
        Candidate {
            field: TaskField::CustomAttributes,
            column: "custom_attributes",
            present: changes.custom_attributes,
        },
    ]
}

/// A column of an attribute definition that a request may change.
#[derive(Debug, Clone, Copy, PartialEq, Eq, Structural)]
pub enum AttributeConfigField {
    AttributeLabel,
    IsRequired,
    DefaultValue,
    Options,
    ValueColorMap,
    Order,
}

/// Which columns of an attribute definition a request names.
#[derive(Debug, Clone, Copy, PartialEq, Eq, Structural)]
pub struct AttributeConfigChanges {
    pub attribute_label: bool,
    pub is_required: bool,
    pub default_value: bool,
    pub options: bool,
    pub value_color_map: bool,
    pub order: bool,
}

/// How the statement that changes an attribute definition begins.
pub const UPDATE_ATTRIBUTE_CONFIG_HEAD: &'static str = "UPDATE project_task_attribute_configs SET ";

/// What follows the assignments: the time of the change and the condition on
/// the row.
pub const UPDATE_ATTRIBUTE_CONFIG_STAMP: &'static str = ", update_date_time = CURRENT_TIMESTAMP WHERE id = ";

/// How the statement ends: the columns it hands back.
pub const UPDATE_ATTRIBUTE_CONFIG_TAIL: &'static str =
    " RETURNING id, project_id, attribute_name, attribute_label, attribute_type, \
     is_required, default_value, COALESCE(options, 'null'::jsonb) AS options, \
     COALESCE(value_color_map, 'null'::jsonb) AS value_color_map, \"order\", \
     creator_id, updater_id, create_date_time, update_date_time";

/// The columns of an attribute definition in the order of the statement.
pub open spec fn attribute_config_candidates(changes: AttributeConfigChanges) -> Seq<Candidate<AttributeConfigField>> {
    seq![
        Candidate {
            field: AttributeConfigField::AttributeLabel,
            column: "attribute_label",
            present: changes.attribute_label,
        },
        Candidate {
            field: AttributeConfigField::IsRequired,
            column: "is_required",
            present: changes.is_required,
        },
        Candidate {
            field: AttributeConfigField::DefaultValue,
            column: "default_value",
            present: changes.default_value,
        },
        Candidate {
            field: AttributeConfigField::Options,
            column: "options",
            present: changes.options,
        },
        Candidate {
            field: AttributeConfigField::ValueColorMap,
            column: "value_color_map",
            present: changes.value_color_map,
        },
        Candidate {
            field: AttributeConfigField::Order,
            column: "\"order\"",
            present: changes.order,
        },
    ]
}

impl TaskRepository {
    /// The part of the listing that a request asks for.
    pub fn list_window(params: &TaskQueryParams) -> (window: PageWindow)
        ensures
            window.limit == page_size_or_default(params.page_size),
            window.offset == page_offset(
                page_or_default(params.page),
                page_size_or_default(params.page_size),
            ),
    {
        page_window(params.page, params.page_size)
    }

    /// The pattern that finds tasks by a part of their name, where the request filters by
    /// it.
    pub fn task_name_pattern(params: &TaskQueryParams) -> (pattern: Option<String>)
        ensures
            match params.task_name {
                Some(text) => pattern matches Some(made) && made@ == contains_pattern_of(text@),
                None => pattern is None,
            },
    {
        optional_contains_pattern(&params.task_name)
    }

    /// The statement that changes the columns of a task that a request names.
    pub fn update_task_plan(changes: &TaskChanges) -> (plan: UpdatePlan<TaskField>)
        ensures
            plan.fields@ == chosen_fields(task_candidates(*changes)),
            plan.sql@ == update_text(
                UPDATE_TASK_HEAD@,
                task_candidates(*changes),
                UPDATE_TASK_STAMP@,
                UPDATE_TASK_TAIL@,
            ),
    {
        let mut candidates: Vec<Candidate<TaskField>> = Vec::new();
        candidates.push(
            Candidate {
                field: TaskField::TaskName,
                column: "task_name",
                present: changes.task_name,
            },
        );
        candidates.push(
            Candidate {
                field: TaskField::ParentId,
                column: "parent_id",
                present: changes.parent_id,
            },
        );
        candidates.push(
            Candidate {
                field: TaskField::Order,
                column: "\"order\"",
                present: changes.order,
            },
        );
        candidates.push(
            Candidate {
                field: TaskField::StartDateTime,
                column: "start_date_time",
                present: changes.start_date_time,
            },
        );
        candidates.push(
            Candidate {
                field: TaskField::EndDateTime,
                column: "end_date_time",
                present: changes.end_date_time,
            },
        );
        candidates.push(
            Candidate {
                field: TaskField::TaskType,
                column: "task_type",
                present: changes.task_type,
            },
        );
        candidates.push(
            Candidate {
                field: TaskField::CustomAttributes,
                column: "custom_attributes",
                present: changes.custom_attributes,
            },
        );
        assert(candidates@ =~= task_candidates(*changes));
        plan_update(UPDATE_TASK_HEAD, &candidates, UPDATE_TASK_STAMP, UPDATE_TASK_TAIL)
    }

    /// The statement that changes the columns of an attribute definition that a
    /// request names.
    pub fn update_attribute_config_plan(changes: &AttributeConfigChanges) -> (plan: UpdatePlan<AttributeConfigField>)
        ensures
            plan.fields@ == chosen_fields(attribute_config_candidates(*changes)),
            plan.sql@ == update_text(
                UPDATE_ATTRIBUTE_CONFIG_HEAD@,
                attribute_config_candidates(*changes),
                UPDATE_ATTRIBUTE_CONFIG_STAMP@,
                UPDATE_ATTRIBUTE_CONFIG_TAIL@,
            ),
    {
        let mut candidates: Vec<Candidate<AttributeConfigField>> = Vec::new();
        candidates.push(
            Candidate {
                field: AttributeConfigField::AttributeLabel,
                column: "attribute_label",
                present: changes.attribute_label,
            },
        );
        candidates.push(
            Candidate {
                field: AttributeConfigField::IsRequired,
                column: "is_required",
                present: changes.is_required,
            },
        );
        candidates.push(
            Candidate {
                field: AttributeConfigField::DefaultValue,
                column: "default_value",
                present: changes.default_value,
            },
        );
        candidates.push(
            Candidate {
                field: AttributeConfigField::Options,
                column: "options",
                present: changes.options,
            },
        );
        candidates.push(
            Candidate {
                field: AttributeConfigField::ValueColorMap,
                column: "value_color_map",
                present: changes.value_color_map,
            },
        );
        candidates.push(
            Candidate {
                field: AttributeConfigField::Order,
                column: "\"order\"",
                present: changes.order,
            },
        );
        assert(candidates@ =~= attribute_config_candidates(*changes));
        plan_update(UPDATE_ATTRIBUTE_CONFIG_HEAD, &candidates, UPDATE_ATTRIBUTE_CONFIG_STAMP, UPDATE_ATTRIBUTE_CONFIG_TAIL)
    }

    /// Whether a request to delete tasks names any task at all; without one
    /// nothing is sent to the database.
    pub fn deletes_anything(task_ids: &Vec<i64>) -> (any: bool)
        ensures
            any == (task_ids@.len() > 0),
    {
        task_ids.len() > 0
    }
}

} // verus!
