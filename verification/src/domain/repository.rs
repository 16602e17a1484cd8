//! The capability set of a todo store, and what each capability means.
//!
//! A store is asked by value: a [`RepositoryRequest`] goes out and a
//! [`RepositoryReply`] or a [`TodoError`] comes back. The use case layer knows
//! a store by nothing else, so any backend that answers these requests as
//! [`reply_fits`] and [`table_after`] describe can stand behind it.
use crate::domain::todo::{optional_view, todo_views, Todo, TodoError, TodoView};
use uuid::Uuid;
use vstd::prelude::*;

verus! {

/// One request to a store.
#[derive(Debug, PartialEq, Eq)]
pub enum RepositoryRequest {
    /// All todos, in whatever order the store keeps them.
    FindAll,
    /// The todo with this identifier, if there is one.
    FindById(Uuid),
    /// Store this todo, whose identifier and timestamps are already set.
    Create(Todo),
    /// Give the stored todo of the same identifier this title and state.
    Update(Todo),
    /// Remove the todo with this identifier.
    Delete(Uuid),
}

/// The mathematical value of a [`RepositoryRequest`].
pub enum RequestView {
    FindAll,
    FindById(Uuid),
    Create(TodoView),
    Update(TodoView),
    Delete(Uuid),
}

impl View for RepositoryRequest {
    type V = RequestView;

    open spec fn view(&self) -> RequestView {
        match self {
            RepositoryRequest::FindAll => RequestView::FindAll,
            RepositoryRequest::FindById(id) => RequestView::FindById(*id),
            RepositoryRequest::Create(todo) => RequestView::Create(todo@),
            RepositoryRequest::Update(todo) => RequestView::Update(todo@),
            RepositoryRequest::Delete(id) => RequestView::Delete(*id),
        }
    }
}

/// What a store answers when it has carried a request out.
#[derive(Debug, PartialEq, Eq)]
pub enum RepositoryReply {
    /// The answer to `FindAll`.
    Todos(Vec<Todo>),
    /// The answer to `FindById`; `None` when no todo has the identifier.
    Found(Option<Todo>),
    /// The answer to `Create` and `Update`: the todo as it is now stored.
    Stored(Todo),
    /// The answer to `Delete`.
    Deleted,
}

/// The mathematical value of a [`RepositoryReply`].
pub enum ReplyView {
    Todos(Seq<TodoView>),
    Found(Option<TodoView>),
    Stored(TodoView),
    Deleted,
}

impl View for RepositoryReply {
    type V = ReplyView;

    open spec fn view(&self) -> ReplyView {
        match self {
            RepositoryReply::Todos(todos) => ReplyView::Todos(todo_views(todos@)),
            RepositoryReply::Found(todo) => ReplyView::Found(optional_view(*todo)),
            RepositoryReply::Stored(todo) => ReplyView::Stored(todo@),
            RepositoryReply::Deleted => ReplyView::Deleted,
        }
    }
}

/// How a request ended: with a reply or with an error.
pub type Outcome = Result<RepositoryReply, TodoError>;

/// The mathematical value of an [`Outcome`].
pub type OutcomeView = Result<ReplyView, TodoError>;

/// The value of an outcome.
pub open spec fn outcome_view(outcome: Outcome) -> OutcomeView {
    match outcome {
        Ok(reply) => Ok(reply@),
        Err(error) => Err(error),
    }
}

/// What a store holds: its todos by identifier.
pub type Table = Map<Uuid, TodoView>;

/// The todo filed under `id`, for an `id` that the table holds. The key is
/// the identifier.
pub open spec fn row_at(table: Table, id: Uuid) -> TodoView {
    TodoView { id, ..table[id] }
}

/// The todo that the table holds under `id`, if any.
pub open spec fn lookup(table: Table, id: Uuid) -> Option<TodoView> {
    if table.contains_key(id) {
        Some(row_at(table, id))
    } else {
        None
    }
}

/// `rows` lists the table: every row is a todo of the table, no identifier
/// comes twice, and no todo of the table is left out. The order is free.
pub open spec fn is_listing(table: Table, rows: Seq<TodoView>) -> bool {
    &&& forall|i: int|
        0 <= i < rows.len() ==> table.contains_key(#[trigger] rows[i].id) && row_at(
            table,
            rows[i].id,
        ) == rows[i]
    &&& forall|i: int, j: int|
        0 <= i < j < rows.len() ==> #[trigger] rows[i].id != #[trigger] rows[j].id
    &&& forall|id: Uuid| #[trigger]
        table.contains_key(id) ==> exists|i: int| 0 <= i < rows.len() && #[trigger] rows[i].id == id
}

/// The stored todo `row` after an update to `title` and `completed` that the
/// store stamps with its own clock. Identifier and creation time stay.
pub open spec fn updated_row(row: TodoView, title: Seq<char>, completed: bool, clock: i64) -> TodoView {
    TodoView { title, completed, updated_at: clock, ..row }
}

/// What the store holds after it has carried `request` out on `before`, its
/// clock reading `clock`.
///
/// Reads change nothing. `Create` adds the todo unless its identifier is
/// taken. `Update` rewrites title, state and time of last change of the todo
/// it names, and nothing where there is none. `Delete` removes the todo, and
/// nothing where there is none.
pub open spec fn table_after(before: Table, request: RequestView, clock: i64) -> Table {
    match request {
        RequestView::FindAll => before,
        RequestView::FindById(_) => before,
        RequestView::Create(todo) => if before.contains_key(todo.id) {
            before
        } else {
            before.insert(todo.id, todo)
        },
        RequestView::Update(todo) => if before.contains_key(todo.id) {
            before.insert(
                todo.id,
                updated_row(row_at(before, todo.id), todo.title, todo.completed, clock),
            )
        } else {
            before
        },
        RequestView::Delete(id) => before.remove(id),
    }
}

/// `outcome` is an answer that a store holding `before` may give to `request`
/// when nothing fails on the way, its clock reading `clock`.
///
/// `FindAll` answers with some listing of the table. `FindById` answers with
/// the todo or with `None`, never with an error. `Create` hands back the todo
/// it was given; an identifier that is taken is a storage error. `Update`
/// answers with the todo as stored after the change, and with `NotFound`
/// where no todo has the identifier. `Delete` succeeds whether or not a todo
/// was there.
pub open spec fn reply_fits(before: Table, request: RequestView, clock: i64, outcome: OutcomeView) -> bool {
    match request {
        RequestView::FindAll => outcome matches Ok(ReplyView::Todos(rows)) && is_listing(before, rows),
        RequestView::FindById(id) => outcome == Ok::<ReplyView, TodoError>(
            ReplyView::Found(lookup(before, id)),
        ),
        RequestView::Create(todo) => if before.contains_key(todo.id) {
            outcome == Err::<ReplyView, TodoError>(TodoError::Storage)
        } else {
            outcome == Ok::<ReplyView, TodoError>(ReplyView::Stored(todo))
        },
        RequestView::Update(todo) => if before.contains_key(todo.id) {
            outcome == Ok::<ReplyView, TodoError>(
                ReplyView::Stored(
                    updated_row(row_at(before, todo.id), todo.title, todo.completed, clock),
                ),
            )
        } else {
            outcome == Err::<ReplyView, TodoError>(TodoError::NotFound)
        },
        RequestView::Delete(_) => outcome == Ok::<ReplyView, TodoError>(ReplyView::Deleted),
    }
}

/// A table of finitely many todos has a listing.
pub proof fn a_listing_exists(table: Table) -> (rows: Seq<TodoView>)
    requires
        table.dom().finite(),
    ensures
        is_listing(table, rows),
    decreases table.dom().len(),
{
    if table.dom().len() == 0 {
        assert(table.dom() =~= Set::empty());
        Seq::empty()
    } else {
        let id = table.dom().choose();
        let rest = table.remove(id);
        let listed = a_listing_exists(rest);
        let rows = listed.push(row_at(table, id));
        assert forall|i: int| 0 <= i < rows.len() implies table.contains_key(#[trigger] rows[i].id)
            && row_at(table, rows[i].id) == rows[i] by {
            if i < listed.len() {
                assert(rest.contains_key(listed[i].id));
                assert(row_at(rest, listed[i].id) == listed[i]);
            }
        }
        assert forall|i: int, j: int| 0 <= i < j < rows.len() implies #[trigger] rows[i].id
            != #[trigger] rows[j].id by {
            assert(rest.contains_key(listed[i].id));
        }
        assert forall|other: Uuid| #[trigger] table.contains_key(other) implies exists|i: int|
            0 <= i < rows.len() && #[trigger] rows[i].id == other by {
            if other == id {
                assert(rows[listed.len() as int].id == other);
            } else {
                assert(rest.contains_key(other));
                let i = choose|i: int| 0 <= i < listed.len() && #[trigger] listed[i].id == other;
                assert(rows[i].id == other);
            }
        }
        rows
    }
}

/// A store of finitely many todos has an answer to every request.
pub proof fn an_answer_exists(before: Table, request: RequestView, clock: i64) -> (outcome:
    OutcomeView)
    requires
        before.dom().finite(),
    ensures
        reply_fits(before, request, clock, outcome),
        table_after(before, request, clock).dom().finite(),
{
    match request {
        RequestView::FindAll => Ok(ReplyView::Todos(a_listing_exists(before))),
        RequestView::FindById(id) => Ok(ReplyView::Found(lookup(before, id))),
        RequestView::Create(todo) => if before.contains_key(todo.id) {
            Err(TodoError::Storage)
        } else {
            Ok(ReplyView::Stored(todo))
        },
        RequestView::Update(todo) => if before.contains_key(todo.id) {
            Ok(
                ReplyView::Stored(
                    updated_row(row_at(before, todo.id), todo.title, todo.completed, clock),
                ),
            )
        } else {
            Err(TodoError::NotFound)
        },
        RequestView::Delete(_) => Ok(ReplyView::Deleted),
    }
}

/// Every todo of the table meets the invariant of a record.
pub open spec fn all_well_formed(table: Table) -> bool {
    forall|id: Uuid| #[trigger] table.contains_key(id) ==> row_at(table, id).well_formed()
}

/// The request carries what the invariant of a record asks of it: a todo to
/// create is well formed, and a todo to update has a title.
pub open spec fn well_formed_request(request: RequestView) -> bool {
    match request {
        RequestView::Create(todo) => todo.well_formed(),
        RequestView::Update(todo) => todo.title.len() > 0,
        _ => true,
    }
}

/// The clock does not read earlier than the creation of the todo that
/// `request` updates, if it updates one.
pub open spec fn clock_not_behind(before: Table, request: RequestView, clock: i64) -> bool {
    request matches RequestView::Update(todo) ==> (before.contains_key(todo.id) ==> row_at(
        before,
        todo.id,
    ).created_at <= clock)
}

/// A store whose todos are all well formed stays so under every well-formed
/// request, as long as its clock does not run behind: no title becomes
/// empty, and no todo was last changed before it was created.
pub proof fn store_keeps_todos_well_formed(before: Table, request: RequestView, clock: i64)
    requires
        all_well_formed(before),
        well_formed_request(request),
        clock_not_behind(before, request, clock),
    ensures
        all_well_formed(table_after(before, request, clock)),
{
}

/// No request changes the identifier or the time of creation of a stored
/// todo, and only `Delete` removes one.
pub proof fn store_keeps_identity(before: Table, request: RequestView, clock: i64, id: Uuid)
    requires
        before.contains_key(id),
        request != RequestView::Delete(id),
    ensures
        table_after(before, request, clock).contains_key(id),
        row_at(table_after(before, request, clock), id).id == id,
        row_at(table_after(before, request, clock), id).created_at == row_at(before, id).created_at,
{
}

} // verus!
