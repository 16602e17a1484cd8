//! The statements that the adapter sends to the database, what the database
//! sends back, and what each statement means.
use crate::domain::repository::{
    a_listing_exists, is_listing, lookup, row_at, updated_row, Table,
};
use crate::domain::todo::{optional_view, todo_views, Todo, TodoView};
use uuid::Uuid;
use vstd::prelude::*;

verus! {

/// The text of the statement that reads every todo.
pub const SELECT_ALL: &'static str =
    "SELECT id, title, completed, created_at, updated_at FROM todos";

/// The text of the statement that reads one todo.
pub const SELECT_BY_ID: &'static str =
    "SELECT id, title, completed, created_at, updated_at FROM todos WHERE id = ?";

/// The text of the statement that stores a new todo.
pub const INSERT: &'static str =
    "INSERT INTO todos (id, title, completed, created_at, updated_at) VALUES (?, ?, ?, ?, ?)";

/// The text of the statement that changes a stored todo. The time of the last
/// change comes from the clock of the database.
pub const UPDATE: &'static str =
    "UPDATE todos SET title = ?, completed = ?, updated_at = NOW() WHERE id = ?";

/// The text of the statement that removes a todo.
pub const DELETE: &'static str = "DELETE FROM todos WHERE id = ?";

/// One statement with the values it carries.
#[derive(Debug, PartialEq, Eq)]
pub enum Statement {
    SelectAll,
    SelectById { id: Uuid },
    Insert { todo: Todo },
    Update { title: String, completed: bool, id: Uuid },
    Delete { id: Uuid },
}

/// The mathematical value of a [`Statement`].
pub enum StatementView {
    SelectAll,
    SelectById { id: Uuid },
    Insert { todo: TodoView },
    Update { title: Seq<char>, completed: bool, id: Uuid },
    Delete { id: Uuid },
}

impl View for Statement {
    type V = StatementView;

    open spec fn view(&self) -> StatementView {
        match self {
            Statement::SelectAll => StatementView::SelectAll,
            Statement::SelectById { id } => StatementView::SelectById { id: *id },
            Statement::Insert { todo } => StatementView::Insert { todo: todo@ },
            Statement::Update { title, completed, id } => StatementView::Update {
                title: title@,
                completed: *completed,
                id: *id,
            },
            Statement::Delete { id } => StatementView::Delete { id: *id },
        }
    }
}

/// One value bound to a placeholder of a statement.
#[derive(Debug, PartialEq, Eq)]
pub enum SqlValue {
    Id(Uuid),
    Text(String),
    Flag(bool),
    Timestamp(i64),
}

/// The mathematical value of a [`SqlValue`].
pub enum SqlValueView {
    Id(Uuid),
    Text(Seq<char>),
    Flag(bool),
    Timestamp(i64),
}

impl View for SqlValue {
    type V = SqlValueView;

    open spec fn view(&self) -> SqlValueView {
        match self {
            SqlValue::Id(id) => SqlValueView::Id(*id),
            SqlValue::Text(text) => SqlValueView::Text(text@),
            SqlValue::Flag(flag) => SqlValueView::Flag(*flag),
            SqlValue::Timestamp(micros) => SqlValueView::Timestamp(*micros),
        }
    }
}

/// The values of a sequence of bound values, in the same order.
pub open spec fn sql_value_views(values: Seq<SqlValue>) -> Seq<SqlValueView> {
    values.map_values(|value: SqlValue| value@)
}

/// How the rows of a statement are to be fetched.
#[derive(Clone, Copy, Debug, PartialEq, Eq)]
pub enum FetchMode {
    /// Every row that the statement selects.
    All,
    /// The first row, or none.
    Optional,
    /// The statement selects nothing; it is only carried out.
    Execute,
}

impl StatementView {
    /// The text of the statement, with `?` for each bound value.
    pub open spec fn sql(self) -> Seq<char> {
        match self {
            StatementView::SelectAll => SELECT_ALL@,
            StatementView::SelectById { .. } => SELECT_BY_ID@,
            StatementView::Insert { .. } => INSERT@,
            StatementView::Update { .. } => UPDATE@,
            StatementView::Delete { .. } => DELETE@,
        }
    }

    /// The bound values, in the order of the placeholders.
    pub open spec fn bindings(self) -> Seq<SqlValueView> {
        match self {
            StatementView::SelectAll => seq![],
            StatementView::SelectById { id } => seq![SqlValueView::Id(id)],
            StatementView::Insert { todo } => seq![
                SqlValueView::Id(todo.id),
                SqlValueView::Text(todo.title),
                SqlValueView::Flag(todo.completed),
                SqlValueView::Timestamp(todo.created_at),
                SqlValueView::Timestamp(todo.updated_at),
            ],
            StatementView::Update { title, completed, id } => seq![
                SqlValueView::Text(title),
                SqlValueView::Flag(completed),
                SqlValueView::Id(id),
            ],
            StatementView::Delete { id } => seq![SqlValueView::Id(id)],
        }
    }

    /// How the rows are fetched: all for the full selection, at most one for
    /// the selection by identifier, none for a write.
    pub open spec fn fetch_mode(self) -> FetchMode {
        match self {
            StatementView::SelectAll => FetchMode::All,
            StatementView::SelectById { .. } => FetchMode::Optional,
            _ => FetchMode::Execute,
        }
    }
}

impl Statement {
    /// The text to prepare.
    pub fn sql(&self) -> (text: &'static str)
        ensures
            text@ == self@.sql(),
    {
        match self {
            Statement::SelectAll => SELECT_ALL,
            Statement::SelectById { .. } => SELECT_BY_ID,
            Statement::Insert { .. } => INSERT,
            Statement::Update { .. } => UPDATE,
            Statement::Delete { .. } => DELETE,
        }
    }

    /// The values to bind, in the order of the placeholders.
    pub fn bindings(&self) -> (values: Vec<SqlValue>)
        ensures
            sql_value_views(values@) == self@.bindings(),
    {
        let values = match self {
            Statement::SelectAll => Vec::new(),
            Statement::SelectById { id } => vec![SqlValue::Id(*id)],
            Statement::Insert { todo } => vec![
                SqlValue::Id(todo.id),
                SqlValue::Text(todo.title.clone()),
                SqlValue::Flag(todo.completed),
                SqlValue::Timestamp(todo.created_at),
                SqlValue::Timestamp(todo.updated_at),
            ],
            Statement::Update { title, completed, id } => vec![
                SqlValue::Text(title.clone()),
                SqlValue::Flag(*completed),
                SqlValue::Id(*id),
            ],
            Statement::Delete { id } => vec![SqlValue::Id(*id)],
        };
        assert(sql_value_views(values@) =~= self@.bindings());
        values
    }

    /// How to fetch what the statement selects.
    pub fn fetch_mode(&self) -> (mode: FetchMode)
        ensures
            mode == self@.fetch_mode(),
    {
        match self {
            Statement::SelectAll => FetchMode::All,
            Statement::SelectById { .. } => FetchMode::Optional,
            _ => FetchMode::Execute,
        }
    }
}

/// What came back from the database for one statement.
#[derive(Debug, PartialEq, Eq)]
pub enum Fetched {
    /// The rows of a statement fetched with [`FetchMode::All`].
    Rows(Vec<Todo>),
    /// The row of a statement fetched with [`FetchMode::Optional`].
    Row(Option<Todo>),
    /// A statement without rows was carried out.
    Done,
    /// The database or the way to it failed.
    Failed,
}

/// The mathematical value of a [`Fetched`].
pub enum FetchedView {
    Rows(Seq<TodoView>),
    Row(Option<TodoView>),
    Done,
    Failed,
}

impl View for Fetched {
    type V = FetchedView;

    open spec fn view(&self) -> FetchedView {
        match self {
            Fetched::Rows(rows) => FetchedView::Rows(todo_views(rows@)),
            Fetched::Row(row) => FetchedView::Row(optional_view(*row)),
            Fetched::Done => FetchedView::Done,
            Fetched::Failed => FetchedView::Failed,
        }
    }
}

/// What the table of todos holds after the database has carried `statement`
/// out on `before`, its clock reading `clock`.
///
/// The identifier is the key of the table: an insertion under a key that is
/// taken is refused and changes nothing. An update or a deletion that matches
/// no row changes nothing.
pub open spec fn rows_after(before: Table, statement: StatementView, clock: i64) -> Table {
    match statement {
        StatementView::SelectAll => before,
        StatementView::SelectById { .. } => before,
        StatementView::Insert { todo } => if before.contains_key(todo.id) {
            before
        } else {
            before.insert(todo.id, todo)
        },
        StatementView::Update { title, completed, id } => if before.contains_key(id) {
            before.insert(id, updated_row(row_at(before, id), title, completed, clock))
        } else {
            before
        },
        StatementView::Delete { id } => before.remove(id),
    }
}

/// `fetched` is what a database holding `before` may send back for
/// `statement` when nothing fails on the way.
///
/// A selection sends rows and changes nothing. A write sends no rows; it is
/// carried out whether or not it matched a row, except for an insertion under
/// a key that is taken, which fails.
pub open spec fn fetch_fits(before: Table, statement: StatementView, fetched: FetchedView) -> bool {
    match statement {
        StatementView::SelectAll => fetched matches FetchedView::Rows(rows) && is_listing(before, rows),
        StatementView::SelectById { id } => fetched == FetchedView::Row(lookup(before, id)),
        StatementView::Insert { todo } => if before.contains_key(todo.id) {
            fetched == FetchedView::Failed
        } else {
            fetched == FetchedView::Done
        },
        StatementView::Update { .. } => fetched == FetchedView::Done,
        StatementView::Delete { .. } => fetched == FetchedView::Done,
    }
}

/// A database of finitely many todos has something to send back for every
/// statement.
pub proof fn a_fetch_exists(before: Table, statement: StatementView, clock: i64) -> (fetched:
    FetchedView)
    requires
        before.dom().finite(),
    ensures
        fetch_fits(before, statement, fetched),
        rows_after(before, statement, clock).dom().finite(),
{
    match statement {
        StatementView::SelectAll => FetchedView::Rows(a_listing_exists(before)),
        StatementView::SelectById { id } => FetchedView::Row(lookup(before, id)),
        StatementView::Insert { todo } => if before.contains_key(todo.id) {
            FetchedView::Failed
        } else {
            FetchedView::Done
        },
        StatementView::Update { .. } => FetchedView::Done,
        StatementView::Delete { .. } => FetchedView::Done,
    }
}

} // verus!
