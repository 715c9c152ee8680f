//! Kinds of tasks and of task attributes, and what clients send to list and
//! delete tasks.

use crate::common::id::Id;
use vstd::prelude::*;

verus! {

/// The kind of value a task attribute holds.
#[derive(Debug, Clone, Copy, PartialEq, Eq, Structural)]
pub enum AttributeType {
    Text,
    Number,
    Boolean,
    Date,
    DateTime,
    Select,
}

impl AttributeType {
    /// The name of the kind as stored and as sent.
    pub open spec fn name(self) -> Seq<char> {
        match self {
            AttributeType::Text => "text"@,
            AttributeType::Number => "number"@,
            AttributeType::Boolean => "boolean"@,
            AttributeType::Date => "date"@,
            AttributeType::DateTime => "datetime"@,
            AttributeType::Select => "select"@,
        }
    }

    /// The kind that a name stands for, if any. Names are lower case.
    pub open spec fn named(name: Seq<char>) -> Option<AttributeType> {
        if name == "text"@ {
            Some(AttributeType::Text)
        } else if name == "number"@ {
            Some(AttributeType::Number)
        } else if name == "boolean"@ {
            Some(AttributeType::Boolean)
        } else if name == "date"@ {
            Some(AttributeType::Date)
        } else if name == "datetime"@ {
            Some(AttributeType::DateTime)
        } else if name == "select"@ {
            Some(AttributeType::Select)
        } else {
            None
        }
    }

    /// The name of the kind.
    pub fn as_str(&self) -> (name: &'static str)
        ensures
            name@ == self.name(),
    {
        match self {
            AttributeType::Text => "text",
            AttributeType::Number => "number",
            AttributeType::Boolean => "boolean",
            AttributeType::Date => "date",
            AttributeType::DateTime => "datetime",
            AttributeType::Select => "select",
        }
    }

    /// The kind with the given name.
    pub fn from_str(name: &str) -> (kind: Option<Self>)
        ensures
            kind == Self::named(name@),
    {
        let given = name.to_owned();
        if given == "text".to_owned() {
            Some(AttributeType::Text)
        } else if given == "number".to_owned() {
            Some(AttributeType::Number)
        } else if given == "boolean".to_owned() {
            Some(AttributeType::Boolean)
        } else if given == "date".to_owned() {
            Some(AttributeType::Date)
        } else if given == "datetime".to_owned() {
            Some(AttributeType::DateTime)
        } else if given == "select".to_owned() {
            Some(AttributeType::Select)
        } else {
            None
        }
    }

    /// Every kind is found again under its own name.
    pub proof fn lemma_name_round_trip(self)
        ensures
            Self::named(self.name()) == Some(self),
    {
        reveal_strlit("text");
        reveal_strlit("number");
        reveal_strlit("boolean");
        reveal_strlit("date");
        reveal_strlit("datetime");
        reveal_strlit("select");
        assert("text"@.len() == 4 && "number"@.len() == 6 && "boolean"@.len() == 7 && "date"@.len()
            == 4 && "datetime"@.len() == 8 && "select"@.len() == 6);
        assert("text"@[0] == 't' && "date"@[0] == 'd');
        assert("number"@[0] == 'n' && "select"@[0] == 's');
    }
}

/// The kind of a task, with the number it is stored under.
#[derive(Debug, Clone, Copy, PartialEq, Eq, Structural)]
pub enum TaskType {
    Unknown,
    Default,
    Milestone,
    Checkpoint,
}

impl TaskType {
    /// The number a kind is stored under.
    pub open spec fn number(self) -> i32 {
        match self {
            TaskType::Unknown => 0,
            TaskType::Default => 1,
            TaskType::Milestone => 2,
            TaskType::Checkpoint => 3,
        }
    }

    /// The kind read from a stored number. Every number reads as
    /// [`TaskType::Unknown`].
    pub fn from_i32(number: i32) -> (kind: Self)
        ensures
            kind == TaskType::Unknown,
    {
        TaskType::Unknown
    }

    /// The number the kind is stored under.
    pub fn as_i32(self) -> (number: i32)
        ensures
            number == self.number(),
    {
        match self {
            TaskType::Unknown => 0,
            TaskType::Default => 1,
            TaskType::Milestone => 2,
            TaskType::Checkpoint => 3,
        }
    }
}

/// Filters and page of a listing of tasks.
#[derive(Debug)]
pub struct TaskQueryParams {
    pub page: Option<i64>,
    pub page_size: Option<i64>,
    pub task_name: Option<String>,
    pub parent_id: Option<Id>,
}

/// The tasks to delete in one request.
#[derive(Debug)]
pub struct BatchDeleteTasksParams {
    pub ids: Vec<Id>,
}

/// The attribute definitions to delete in one request.
#[derive(Debug)]
pub struct BatchDeleteTaskAttributeConfigsParams {
    pub ids: Vec<Id>,
}

} // verus!
