//! What a statement against the store says, apart from its text: the
//! columns it sets or compares, and the values bound to them.

use vstd::prelude::*;

verus! {

/// A value bound to a statement.
#[derive(Debug, Clone, PartialEq, Eq)]
pub enum SqlValue {
    Int(i64),
    Text(String),
    Bool(bool),
}

/// A bound value, with a text as its characters.
pub enum SqlValueView {
    Int(i64),
    Text(Seq<char>),
    Bool(bool),
}

impl View for SqlValue {
    type V = SqlValueView;

    open spec fn view(&self) -> SqlValueView {
        match self {
            SqlValue::Int(n) => SqlValueView::Int(*n),
            SqlValue::Text(text) => SqlValueView::Text(text@),
            SqlValue::Bool(b) => SqlValueView::Bool(*b),
        }
    }
}

/// A column, and the value that it is set to or compared with.
#[derive(Debug, Clone, PartialEq, Eq)]
pub struct ColumnValue {
    pub column: String,
    pub value: SqlValue,
}

/// A column and its value, with each text as its characters.
pub struct ColumnValueView {
    pub column: Seq<char>,
    pub value: SqlValueView,
}

impl View for ColumnValue {
    type V = ColumnValueView;

    open spec fn view(&self) -> ColumnValueView {
        ColumnValueView { column: self.column@, value: self.value@ }
    }
}

/// The columns of a sequence with their values, each text as its characters.
pub open spec fn column_views(columns: Seq<ColumnValue>) -> Seq<ColumnValueView> {
    columns.map_values(|c: ColumnValue| c@)
}

/// A column with a value: one entry where the value is given, else none.
pub open spec fn given(column: Seq<char>, value: Option<SqlValueView>) -> Seq<ColumnValueView> {
    match value {
        Some(value) => seq![ColumnValueView { column, value }],
        None => Seq::<ColumnValueView>::empty(),
    }
}

/// A text that may be absent, as a bound value.
pub open spec fn text_value(text: Option<String>) -> Option<SqlValueView> {
    match text {
        Some(text) => Some(SqlValueView::Text(text@)),
        None => None,
    }
}

/// An integer that may be absent, as a bound value.
pub open spec fn int_value(n: Option<i64>) -> Option<SqlValueView> {
    match n {
        Some(n) => Some(SqlValueView::Int(n)),
        None => None,
    }
}

/// A flag that may be absent, as a bound value.
pub open spec fn bool_value(b: Option<bool>) -> Option<SqlValueView> {
    match b {
        Some(b) => Some(SqlValueView::Bool(b)),
        None => None,
    }
}

/// Adds a column with its value, where the value is given.
pub fn push_given(columns: &mut Vec<ColumnValue>, column: &str, value: Option<SqlValue>)
    ensures
        column_views(final(columns)@) == column_views(old(columns)@) + given(
            column@,
            match value {
                Some(v) => Some(v@),
                None => None,
            },
        ),
{
    if let Some(value) = value {
        columns.push(ColumnValue { column: column.to_owned(), value });
    }
}

/// Adds a text column, where the text is given.
pub fn push_text(columns: &mut Vec<ColumnValue>, column: &str, text: Option<String>)
    ensures
        column_views(final(columns)@) == column_views(old(columns)@) + given(
            column@,
            text_value(text),
        ),
{
    let value = match text {
        Some(text) => Some(SqlValue::Text(text)),
        None => None,
    };
    push_given(columns, column, value);
}

/// Adds an integer column, where the integer is given.
pub fn push_int(columns: &mut Vec<ColumnValue>, column: &str, n: Option<i64>)
    ensures
        column_views(final(columns)@) == column_views(old(columns)@) + given(column@, int_value(n)),
{
    let value = match n {
        Some(n) => Some(SqlValue::Int(n)),
        None => None,
    };
    push_given(columns, column, value);
}

/// Adds a flag column, where the flag is given.
pub fn push_bool(columns: &mut Vec<ColumnValue>, column: &str, b: Option<bool>)
    ensures
        column_views(final(columns)@) == column_views(old(columns)@) + given(
            column@,
            bool_value(b),
        ),
{
    let value = match b {
        Some(b) => Some(SqlValue::Bool(b)),
        None => None,
    };
    push_given(columns, column, value);
}

/// The update of the one row with this id: each of the columns is set to
/// its value. An update without columns changes nothing in the row.
#[derive(Debug, PartialEq, Eq)]
pub struct RowUpdate {
    pub id: i64,
    pub changes: Vec<ColumnValue>,
}

} // verus!
