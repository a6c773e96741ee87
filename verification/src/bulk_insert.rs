//! The query builder of the `sqlx` crate, as far as the bulk insert of event
//! types uses it.
//!
//! Nothing in this file is proved: each contract states what the builder
//! does, and `statements` is proved from these contracts.

use crate::model::views;
use vstd::prelude::*;

verus! {

/// One row of the bulk insert, ready to be bound: the category is the text
/// that is stored.
pub struct EventTypeRow {
    pub analysis_id: i64,
    pub name: String,
    pub keyboard_key: String,
    pub category: String,
}

pub struct EventTypeRowView {
    pub analysis_id: i64,
    pub name: Seq<char>,
    pub keyboard_key: Seq<char>,
    pub category: Seq<char>,
}

impl View for EventTypeRow {
    type V = EventTypeRowView;

    open spec fn view(&self) -> EventTypeRowView {
        EventTypeRowView {
            analysis_id: self.analysis_id,
            name: self.name@,
            keyboard_key: self.keyboard_key@,
            category: self.category@,
        }
    }
}

/// A value bound to a placeholder of a statement.
pub enum Bound {
    Integer(i64),
    Text(Seq<char>),
}

/// The text of `count` tuples of four placeholders, a comma and a space
/// between each two.
pub open spec fn tuples_text(count: nat) -> Seq<char>
    decreases count,
{
    if count == 0 {
        Seq::empty()
    } else if count == 1 {
        "(?, ?, ?, ?)"@
    } else {
        tuples_text((count - 1) as nat) + ", (?, ?, ?, ?)"@
    }
}

/// The `VALUES` clause for `count` rows.
pub open spec fn values_clause(count: nat) -> Seq<char> {
    "VALUES "@ + tuples_text(count)
}

/// The values of the rows in the order of their placeholders: row by row,
/// and in each row the analysis, the name, the key and the category.
pub open spec fn row_values(rows: Seq<EventTypeRowView>) -> Seq<Bound>
    decreases rows.len(),
{
    if rows.len() == 0 {
        Seq::empty()
    } else {
        row_values(rows.drop_last()) + seq![
            Bound::Integer(rows.last().analysis_id),
            Bound::Text(rows.last().name),
            Bound::Text(rows.last().keyboard_key),
            Bound::Text(rows.last().category),
        ]
    }
}

/// A statement under construction: a `sqlx::QueryBuilder` for SQLite. The
/// one who runs the statement takes the builder out of the field.
#[verifier::external_body]
pub struct BulkInsert {
    pub builder: sqlx::QueryBuilder<'static, sqlx::Sqlite>,
}

// The text of the statement as built so far.
pub uninterp spec fn statement_text(insert: BulkInsert) -> Seq<char>;

// The values bound so far, in the order of their placeholders.
pub uninterp spec fn bound_values(insert: BulkInsert) -> Seq<Bound>;

impl BulkInsert {
    /// `sqlx::QueryBuilder::new`.
    ///
    /// Claimed: the statement is the text given and nothing is bound.
    #[verifier::external_body]
    pub(crate) fn new(start: &str) -> (insert: BulkInsert)
        ensures
            statement_text(insert) == start@,
            bound_values(insert) == Seq::<Bound>::empty(),
    {
        BulkInsert { builder: sqlx::QueryBuilder::new(start) }
    }

    /// `sqlx::QueryBuilder::push_values`, with the four fields of each row
    /// bound by `Separated::push_bind`.
    ///
    /// Claimed: the builder adds to the text `VALUES` and, for each row, a
    /// tuple of four placeholders, which for SQLite are question marks; and
    /// it adds to the values bound the fields of the rows, in order. The
    /// builder is not meant for no rows at all, which `requires` leaves out.
    #[verifier::external_body]
    pub(crate) fn push_rows(&mut self, rows: Vec<EventTypeRow>)
        requires
            rows@.len() > 0,
        ensures
            statement_text(*final(self)) == statement_text(*old(self)) + values_clause(
                rows@.len(),
            ),
            bound_values(*final(self)) == bound_values(*old(self)) + row_values(views(rows@)),
    {
        self.builder.push_values(rows, |mut tuple, row| {
            tuple
                .push_bind(row.analysis_id)
                .push_bind(row.name)
                .push_bind(row.keyboard_key)
                .push_bind(row.category);
        });
    }
}

} // verus!
