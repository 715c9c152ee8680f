//! What clients send to manage holidays in bulk.

use crate::common::id::Id;
use vstd::prelude::*;

verus! {

/// The holidays to delete in one request.
#[derive(Debug)]
pub struct BatchDeleteHolidaysParams {
    pub ids: Vec<Id>,
}

/// One change applied to several holidays. An absent field is left as it is.
#[derive(Debug)]
pub struct BatchUpdateHolidaysParams {
    pub ids: Vec<Id>,
    pub holiday_name: Option<String>,
    pub description: Option<String>,
    pub holiday_type: Option<i32>,
}

} // verus!
