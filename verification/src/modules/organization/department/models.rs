//! What clients send to manage departments.

use crate::common::id::Id;
use vstd::prelude::*;

verus! {

/// A new department.
#[derive(Debug)]
pub struct CreateDepartmentParams {
    pub department_name: String,
    pub description: Option<String>,
}

/// Changes to a department. An absent field is left as it is.
#[derive(Debug)]
pub struct UpdateDepartmentParams {
    pub department_name: Option<String>,
    /// `None`: not sent, the description stays. `Some(None)`: sent as null,
    /// the description is cleared. `Some(Some(text))`: the description is
    /// set.
    pub description: Option<Option<String>>,
}

/// Filter and page of a listing of departments.
#[derive(Debug)]
pub struct DepartmentQueryParams {
    pub page: Option<i64>,
    pub page_size: Option<i64>,
    pub department_name: Option<String>,
}

/// The departments to delete in one request.
#[derive(Debug)]
pub struct BatchDeleteDepartmentsParams {
    pub ids: Vec<Id>,
}

} // verus!
