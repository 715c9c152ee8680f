//! What is computed before holidays are read or written: the page of a
//! listing, the pattern of a search, and the statements of updates.

use crate::common::paging::{
    contains_pattern_of, optional_contains_pattern, page_offset, page_or_default,
    page_size_or_default, page_window, PageWindow,
};
use crate::common::sql::{chosen_fields, plan_update, update_text, Candidate, UpdatePlan};
use crate::modules::holiday::models::BatchUpdateHolidaysParams;
use vstd::prelude::*;

verus! {

/// Reading and writing of holidays.
pub struct HolidayRepository;

/// A column of a holiday that a request may change.
#[derive(Debug, Clone, Copy, PartialEq, Eq, Structural)]
pub enum HolidayField {
    HolidayName,
    Description,
    HolidayDate,
    HolidayType,
}

/// Which columns of a holiday a request names.
#[derive(Debug, Clone, Copy, PartialEq, Eq, Structural)]
pub struct HolidayChanges {
    pub holiday_name: bool,
    pub description: bool,
    pub holiday_date: bool,
    pub holiday_type: bool,
}

/// How the statement that changes a holiday begins.
pub const UPDATE_HOLIDAY_HEAD: &'static str = "UPDATE holidays SET ";

/// What follows the assignments: the time of the change and the condition on
/// the row.
pub const UPDATE_HOLIDAY_STAMP: &'static str = ", update_date_time = NOW() WHERE id = ";

/// How the statement ends: the columns it hands back.
pub const UPDATE_HOLIDAY_TAIL: &'static str =
    " RETURNING id, holiday_name, description, holiday_date, holiday_type, \
     creator_id, updater_id, create_date_time, update_date_time";

/// The columns of a holiday in the order of the statement.
pub open spec fn holiday_candidates(changes: HolidayChanges) -> Seq<Candidate<HolidayField>> {
    seq![
        Candidate {
            field: HolidayField::HolidayName,
            column: "holiday_name",
            present: changes.holiday_name,
        },
        Candidate {
            field: HolidayField::Description,
            column: "description",
            present: changes.description,
        },
        Candidate {
            field: HolidayField::HolidayDate,
            column: "holiday_date",
            present: changes.holiday_date,
        },
        Candidate {
            field: HolidayField::HolidayType,
            column: "holiday_type",
            present: changes.holiday_type,
        },
    ]
}

/// What follows the assignments of an update of several holidays: the time
/// of the change and the condition on the rows.
pub const BATCH_UPDATE_HOLIDAYS_STAMP: &'static str = ", update_date_time = NOW() WHERE id = ANY(";

/// How the update of several holidays ends: the columns it hands back.
pub const BATCH_UPDATE_HOLIDAYS_TAIL: &'static str =
    ") RETURNING id, holiday_name, description, holiday_date, holiday_type, \
     creator_id, updater_id, create_date_time, update_date_time";

/// What a request to change several holidays at once comes to.
pub enum BatchUpdate {
    /// No holiday is named: nothing is read or written, and nothing is
    /// handed back.
    Nothing,
    /// Holidays are named but no column is: the holidays are read and handed
    /// back as they are.
    ReadOnly,
    /// The statement that changes the named columns of the named holidays.
    /// Its values are those of the fields, then the identifier of whoever
    /// makes the change, then the list of the holidays' identifiers.
    Update(UpdatePlan<HolidayField>),
}

/// Which columns a change of several holidays names; the day of a holiday
/// cannot be changed in bulk.
pub open spec fn batch_changes(params: BatchUpdateHolidaysParams) -> HolidayChanges {
    HolidayChanges {
        holiday_name: params.holiday_name is Some,
        description: params.description is Some,
        holiday_date: false,
        holiday_type: params.holiday_type is Some,
    }
}

impl HolidayRepository {
    /// The part of the listing that a request asks for.
    pub fn list_window(page: Option<i64>, page_size: Option<i64>) -> (window: PageWindow)
        ensures
            window.limit == page_size_or_default(page_size),
            window.offset == page_offset(page_or_default(page), page_size_or_default(page_size)),
    {
        page_window(page, page_size)
    }

    /// The pattern that finds holidays by a part of their name, where the
    /// request filters by it.
    pub fn holiday_name_pattern(holiday_name: &Option<String>) -> (pattern: Option<String>)
        ensures
            match *holiday_name {
                Some(text) => pattern matches Some(made) && made@ == contains_pattern_of(text@),
                None => pattern is None,
            },
    {
        optional_contains_pattern(holiday_name)
    }

    /// The statement that changes the columns of a holiday that a request
    /// names.
    pub fn update_holiday_plan(changes: &HolidayChanges) -> (plan: UpdatePlan<HolidayField>)
        ensures
            plan.fields@ == chosen_fields(holiday_candidates(*changes)),
            plan.sql@ == update_text(
                UPDATE_HOLIDAY_HEAD@,
                holiday_candidates(*changes),
                UPDATE_HOLIDAY_STAMP@,
                UPDATE_HOLIDAY_TAIL@,
            ),
    {
        let mut candidates: Vec<Candidate<HolidayField>> = Vec::new();
        candidates.push(
            Candidate {
                field: HolidayField::HolidayName,
                column: "holiday_name",
                present: changes.holiday_name,
            },
        );
        candidates.push(
            Candidate {
                field: HolidayField::Description,
                column: "description",
                present: changes.description,
            },
        );
        candidates.push(
            Candidate {
                field: HolidayField::HolidayDate,
                column: "holiday_date",
                present: changes.holiday_date,
            },
        );
        candidates.push(
            Candidate {
                field: HolidayField::HolidayType,
                column: "holiday_type",
                present: changes.holiday_type,
            },
        );
        assert(candidates@ =~= holiday_candidates(*changes));
        plan_update(UPDATE_HOLIDAY_HEAD, &candidates, UPDATE_HOLIDAY_STAMP, UPDATE_HOLIDAY_TAIL)
    }

    /// What a request to change several holidays at once comes to.
    pub fn batch_update_holidays_plan(params: &BatchUpdateHolidaysParams) -> (planned: BatchUpdate)
        ensures
            params.ids@.len() == 0 ==> planned is Nothing,
            params.ids@.len() > 0 && chosen_fields(holiday_candidates(batch_changes(*params))).len()
                == 0 ==> planned is ReadOnly,
            params.ids@.len() > 0 && chosen_fields(holiday_candidates(batch_changes(*params))).len()
                > 0 ==> (planned matches BatchUpdate::Update(plan) && plan.fields@ == chosen_fields(
                holiday_candidates(batch_changes(*params)),
            ) && plan.sql@ == update_text(
                UPDATE_HOLIDAY_HEAD@,
                holiday_candidates(batch_changes(*params)),
                BATCH_UPDATE_HOLIDAYS_STAMP@,
                BATCH_UPDATE_HOLIDAYS_TAIL@,
            )),
    {
        if params.ids.len() == 0 {
            return BatchUpdate::Nothing;
        }
        let changes = HolidayChanges {
            holiday_name: params.holiday_name.is_some(),
            description: params.description.is_some(),
            holiday_date: false,
            holiday_type: params.holiday_type.is_some(),
        };
        let mut candidates: Vec<Candidate<HolidayField>> = Vec::new();
        candidates.push(
            Candidate {
                field: HolidayField::HolidayName,
                column: "holiday_name",
                present: changes.holiday_name,
            },
        );
        candidates.push(
            Candidate {
                field: HolidayField::Description,
                column: "description",
                present: changes.description,
            },
        );
        candidates.push(
            Candidate {
                field: HolidayField::HolidayDate,
                column: "holiday_date",
                present: changes.holiday_date,
            },
        );
        candidates.push(
            Candidate {
                field: HolidayField::HolidayType,
                column: "holiday_type",
                present: changes.holiday_type,
            },
        );
        assert(candidates@ =~= holiday_candidates(batch_changes(*params)));
        let plan = plan_update(
            UPDATE_HOLIDAY_HEAD,
            &candidates,
            BATCH_UPDATE_HOLIDAYS_STAMP,
            BATCH_UPDATE_HOLIDAYS_TAIL,
        );
        if plan.fields.len() == 0 {
            BatchUpdate::ReadOnly
        } else {
            BatchUpdate::Update(plan)
        }
    }
}

} // verus!
