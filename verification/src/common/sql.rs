//! The text of `UPDATE` statements that change only the columns a request
//! names.
//!
//! A statement is text with numbered placeholders, `$1`, `$2` and so on, in
//! the order in which the values are handed to the database.

use crate::common::text::{digits_text, push_digits};
use vstd::prelude::*;
use vstd::string::StringExecFns;

verus! {

/// The placeholder of the value with the given number.
pub open spec fn placeholder(number: nat) -> Seq<char> {
    "$"@ + digits_text(number)
}

/// A statement under construction.
pub struct Statement {
    text: String,
    binds: u64,
}

impl Statement {
    /// The text so far.
    pub closed spec fn text(&self) -> Seq<char> {
        self.text@
    }

    /// The number of placeholders in the text so far.
    pub closed spec fn binds(&self) -> nat {
        self.binds as nat
    }

    /// A statement that begins with `init` and has no placeholder yet.
    pub fn new(init: &str) -> (statement: Self)
        ensures
            statement.text() == init@,
            statement.binds() == 0,
    {
        Statement { text: init.to_owned(), binds: 0 }
    }

    /// Appends `sql` as it is.
    pub fn push(&mut self, sql: &str)
        ensures
            final(self).text() == old(self).text() + sql@,
            final(self).binds() == old(self).binds(),
    {
        self.text.append(sql);
    }

    /// Appends the placeholder of one more value.
    pub fn push_bind(&mut self)
        requires
            old(self).binds() < u64::MAX,
        ensures
            final(self).binds() == old(self).binds() + 1,
            final(self).text() == old(self).text() + placeholder(final(self).binds()),
    {
        self.binds = self.binds + 1;
        self.text.push('$');
        push_digits(&mut self.text, self.binds);
        proof {
            reveal_strlit("$");
            assert("$"@ =~= seq!['$']);
            assert(old(self).text@.push('$') + digits_text(self.binds as nat) =~= old(self).text@
                + ("$"@ + digits_text(self.binds as nat)));
        }
    }

    /// The number of placeholders in the text.
    pub fn bind_count(&self) -> (count: u64)
        ensures
            count == self.binds(),
    {
        self.binds
    }

    /// The finished text.
    pub fn into_sql(self) -> (sql: String)
        ensures
            sql@ == self.text(),
    {
        self.text
    }
}

/// A column that a request may change: what the plan calls it, its name in
/// the statement, and whether the request names it.
pub struct Candidate<F> {
    pub field: F,
    pub column: &'static str,
    pub present: bool,
}

/// The fields among the candidates that the request names, in order.
pub open spec fn chosen_fields<F>(candidates: Seq<Candidate<F>>) -> Seq<F>
    decreases candidates.len(),
{
    if candidates.len() == 0 {
        Seq::empty()
    } else if candidates.last().present {
        chosen_fields(candidates.drop_last()).push(candidates.last().field)
    } else {
        chosen_fields(candidates.drop_last())
    }
}

/// The assignments of the columns that the request names, each to the next
/// placeholder, with `, ` between them.
pub open spec fn assignments<F>(candidates: Seq<Candidate<F>>) -> Seq<char>
    decreases candidates.len(),
{
    if candidates.len() == 0 {
        Seq::empty()
    } else if candidates.last().present {
        assignments(candidates.drop_last()) + (if chosen_fields(candidates.drop_last()).len() > 0 {
            ", "@
        } else {
            Seq::<char>::empty()
        }) + candidates.last().column@ + " = "@ + placeholder(chosen_fields(candidates).len())
    } else {
        assignments(candidates.drop_last())
    }
}

/// The statement that changes the named columns of one row and records who
/// changed it: `head`, the assignments, the assignment of `updater_id`, then
/// `stamp`, which assigns the time of the change and opens the condition on
/// the row, the placeholder of the row's identifier, and `tail`.
pub open spec fn update_text<F>(
    head: Seq<char>,
    candidates: Seq<Candidate<F>>,
    stamp: Seq<char>,
    tail: Seq<char>,
) -> Seq<char> {
    head + assignments(candidates) + (if chosen_fields(candidates).len() > 0 {
        ", "@
    } else {
        Seq::<char>::empty()
    }) + "updater_id = "@ + placeholder(chosen_fields(candidates).len() + 1) + stamp + placeholder(
        chosen_fields(candidates).len() + 2,
    ) + tail
}

/// An `UPDATE` statement and the order of its values: first the values of
/// `fields`, then the identifier of whoever makes the change, then the
/// identifier of the row.
pub struct UpdatePlan<F> {
    pub sql: String,
    pub fields: Vec<F>,
}

/// Plans the update of one row.
pub fn plan_update<F: Copy>(
    head: &str,
    candidates: &Vec<Candidate<F>>,
    stamp: &str,
    tail: &str,
) -> (plan: UpdatePlan<F>)
    requires
        candidates.len() + 2 <= u64::MAX,
    ensures
        plan.fields@ == chosen_fields(candidates@),
        plan.sql@ == update_text(head@, candidates@, stamp@, tail@),
{
    let mut statement = Statement::new(head);
    let mut fields: Vec<F> = Vec::new();
    let mut at: usize = 0;
    while at < candidates.len()
        invariant
            at <= candidates.len(),
            candidates.len() + 2 <= u64::MAX,
            fields@ == chosen_fields(candidates@.take(at as int)),
            fields@.len() <= at,
            statement.binds() == fields@.len(),
            statement.text() == head@ + assignments(candidates@.take(at as int)),
        decreases candidates.len() - at,
    {
        let ghost before = candidates@.take(at as int);
        proof {
            assert(candidates@.take(at + 1).drop_last() =~= before);
            assert(candidates@.take(at + 1).last() == candidates@[at as int]);
        }
        let candidate = &candidates[at];
        if candidate.present {
            if fields.len() > 0 {
                statement.push(", ");
            }
            statement.push(candidate.column);
            statement.push(" = ");
            statement.push_bind();
            fields.push(candidate.field);
            proof {
                let comma = if chosen_fields(before).len() > 0 {
                    ", "@
                } else {
                    Seq::<char>::empty()
                };
                assert(statement.text() =~= head@ + (assignments(before) + comma
                    + candidate.column@ + " = "@ + placeholder(fields@.len())));
            }
        }
        at = at + 1;
    }
    proof {
        assert(candidates@.take(candidates@.len() as int) =~= candidates@);
    }
    if fields.len() > 0 {
        statement.push(", ");
    }
    statement.push("updater_id = ");
    statement.push_bind();
    statement.push(stamp);
    statement.push_bind();
    statement.push(tail);
    proof {
        let comma = if chosen_fields(candidates@).len() > 0 {
            ", "@
        } else {
            Seq::<char>::empty()
        };
        assert(statement.text() =~= head@ + assignments(candidates@) + comma + "updater_id = "@
            + placeholder(fields@.len() + 1) + stamp@ + placeholder(fields@.len() + 2) + tail@);
    }
    UpdatePlan { sql: statement.into_sql(), fields }
}

} // verus!
