//! The adapter that answers repository requests with database statements.
//!
//! The adapter never touches the database. For a request it names the first
//! statement; for what the database sent back it names the next statement or
//! the outcome. Whoever holds the connection carries the statements out.
use crate::domain::repository::{
    outcome_view, Outcome, OutcomeView, ReplyView, RepositoryReply, RepositoryRequest, RequestView,
};
use crate::domain::todo::{Todo, TodoError, TodoView};
use crate::infrastructure::statement::{Fetched, FetchedView, Statement, StatementView};
use uuid::Uuid;
use vstd::prelude::*;

verus! {

/// What the adapter waits for while a statement is with the database.
#[derive(Debug, PartialEq, Eq)]
pub enum Pending {
    /// The rows of the full selection.
    FindAll,
    /// The row of the selection by identifier.
    FindById,
    /// The insertion of this todo.
    Create(Todo),
    /// The write of an update to the todo with this identifier.
    UpdateWrite(Uuid),
    /// The row read back after the write of an update.
    UpdateRead,
    /// The deletion.
    Delete,
}

/// The mathematical value of a [`Pending`].
pub enum PendingView {
    FindAll,
    FindById,
    Create(TodoView),
    UpdateWrite(Uuid),
    UpdateRead,
    Delete,
}

impl View for Pending {
    type V = PendingView;

    open spec fn view(&self) -> PendingView {
        match self {
            Pending::FindAll => PendingView::FindAll,
            Pending::FindById => PendingView::FindById,
            Pending::Create(todo) => PendingView::Create(todo@),
            Pending::UpdateWrite(id) => PendingView::UpdateWrite(*id),
            Pending::UpdateRead => PendingView::UpdateRead,
            Pending::Delete => PendingView::Delete,
        }
    }
}

/// What the adapter wants next.
#[derive(Debug, PartialEq, Eq)]
pub enum RepositoryStep {
    /// Carry the statement out and come back with what was fetched.
    Execute(Statement, Pending),
    /// The request has ended.
    Finished(Outcome),
}

/// The mathematical value of a [`RepositoryStep`].
pub enum RepositoryStepView {
    Execute(StatementView, PendingView),
    Finished(OutcomeView),
}

impl View for RepositoryStep {
    type V = RepositoryStepView;

    open spec fn view(&self) -> RepositoryStepView {
        match self {
            RepositoryStep::Execute(statement, pending) => RepositoryStepView::Execute(
                statement@,
                pending@,
            ),
            RepositoryStep::Finished(outcome) => RepositoryStepView::Finished(outcome_view(*outcome)),
        }
    }
}

/// The first step for a request.
///
/// A read is one selection. `Create` is one insertion of all five columns.
/// `Update` starts with the write of title and state; the todo's own
/// timestamps are not sent. `Delete` is one deletion.
pub open spec fn first_step(request: RequestView) -> RepositoryStepView {
    match request {
        RequestView::FindAll => RepositoryStepView::Execute(StatementView::SelectAll, PendingView::FindAll),
        RequestView::FindById(id) => RepositoryStepView::Execute(
            StatementView::SelectById { id },
            PendingView::FindById,
        ),
        RequestView::Create(todo) => RepositoryStepView::Execute(
            StatementView::Insert { todo },
            PendingView::Create(todo),
        ),
        RequestView::Update(todo) => RepositoryStepView::Execute(
            StatementView::Update { title: todo.title, completed: todo.completed, id: todo.id },
            PendingView::UpdateWrite(todo.id),
        ),
        RequestView::Delete(id) => RepositoryStepView::Execute(
            StatementView::Delete { id },
            PendingView::Delete,
        ),
    }
}

/// The step that follows when `fetched` comes back while the adapter waits
/// for `pending`.
///
/// A selection ends with its rows. An insertion ends with the todo that was
/// handed in, unchanged. The write of an update is followed by a selection of
/// the same identifier, and that ends with the row read, or with `NotFound`
/// where there is none. A deletion ends with success. Whatever else comes
/// back, a failure or an answer of the wrong shape, ends the request with a
/// storage error.
pub open spec fn next_step(pending: PendingView, fetched: FetchedView) -> RepositoryStepView {
    match (pending, fetched) {
        (PendingView::FindAll, FetchedView::Rows(rows)) => RepositoryStepView::Finished(
            Ok(ReplyView::Todos(rows)),
        ),
        (PendingView::FindById, FetchedView::Row(row)) => RepositoryStepView::Finished(
            Ok(ReplyView::Found(row)),
        ),
        (PendingView::Create(todo), FetchedView::Done) => RepositoryStepView::Finished(
            Ok(ReplyView::Stored(todo)),
        ),
        (PendingView::UpdateWrite(id), FetchedView::Done) => RepositoryStepView::Execute(
            StatementView::SelectById { id },
            PendingView::UpdateRead,
        ),
        (PendingView::UpdateRead, FetchedView::Row(Some(row))) => RepositoryStepView::Finished(
            Ok(ReplyView::Stored(row)),
        ),
        (PendingView::UpdateRead, FetchedView::Row(None)) => RepositoryStepView::Finished(
            Err(TodoError::NotFound),
        ),
        (PendingView::Delete, FetchedView::Done) => RepositoryStepView::Finished(
            Ok(ReplyView::Deleted),
        ),
        _ => RepositoryStepView::Finished(Err(TodoError::Storage)),
    }
}

/// The adapter of a relational database, around the connection pool that its
/// statements are meant for. The pool is only kept; the adapter's decisions
/// do not depend on it.
#[derive(Clone)]
pub struct TodoRepositoryImpl<P> {
    pub pool: P,
}

impl<P> TodoRepositoryImpl<P> {
    /// An adapter around `pool`.
    pub fn new(pool: P) -> (repository: Self)
        ensures
            repository.pool == pool,
    {
        Self { pool }
    }

    /// Starts the reading of all todos.
    pub fn find_all(&self) -> (step: RepositoryStep)
        ensures
            step@ == first_step(RequestView::FindAll),
    {
        RepositoryStep::Execute(Statement::SelectAll, Pending::FindAll)
    }

    /// Starts the reading of the todo `id`.
    pub fn find_by_id(&self, id: Uuid) -> (step: RepositoryStep)
        ensures
            step@ == first_step(RequestView::FindById(id)),
    {
        RepositoryStep::Execute(Statement::SelectById { id }, Pending::FindById)
    }

    /// Starts the storing of `todo`.
    pub fn create(&self, todo: Todo) -> (step: RepositoryStep)
        ensures
            step@ == first_step(RequestView::Create(todo@)),
    {
        let row = todo.clone();
        RepositoryStep::Execute(Statement::Insert { todo: row }, Pending::Create(todo))
    }

    /// Starts the update of the stored todo that has the identifier of `todo`.
    pub fn update(&self, todo: Todo) -> (step: RepositoryStep)
        ensures
            step@ == first_step(RequestView::Update(todo@)),
    {
        RepositoryStep::Execute(
            Statement::Update { title: todo.title, completed: todo.completed, id: todo.id },
            Pending::UpdateWrite(todo.id),
        )
    }

    /// Starts the removal of the todo `id`.
    pub fn delete(&self, id: Uuid) -> (step: RepositoryStep)
        ensures
            step@ == first_step(RequestView::Delete(id)),
    {
        RepositoryStep::Execute(Statement::Delete { id }, Pending::Delete)
    }

    /// Starts `request`.
    pub fn begin(&self, request: RepositoryRequest) -> (step: RepositoryStep)
        ensures
            step@ == first_step(request@),
    {
        match request {
            RepositoryRequest::FindAll => self.find_all(),
            RepositoryRequest::FindById(id) => self.find_by_id(id),
            RepositoryRequest::Create(todo) => self.create(todo),
            RepositoryRequest::Update(todo) => self.update(todo),
            RepositoryRequest::Delete(id) => self.delete(id),
        }
    }

    /// Goes on after the database has sent `fetched` back for the statement
    /// that was out while the adapter waited for `pending`.
    pub fn resume(&self, pending: Pending, fetched: Fetched) -> (step: RepositoryStep)
        ensures
            step@ == next_step(pending@, fetched@),
    {
        match (pending, fetched) {
            (Pending::FindAll, Fetched::Rows(rows)) => RepositoryStep::Finished(
                Ok(RepositoryReply::Todos(rows)),
            ),
            (Pending::FindById, Fetched::Row(row)) => RepositoryStep::Finished(
                Ok(RepositoryReply::Found(row)),
            ),
            (Pending::Create(todo), Fetched::Done) => RepositoryStep::Finished(
                Ok(RepositoryReply::Stored(todo)),
            ),
            (Pending::UpdateWrite(id), Fetched::Done) => RepositoryStep::Execute(
                Statement::SelectById { id },
                Pending::UpdateRead,
            ),
            (Pending::UpdateRead, Fetched::Row(Some(row))) => RepositoryStep::Finished(
                Ok(RepositoryReply::Stored(row)),
            ),
            (Pending::UpdateRead, Fetched::Row(None)) => RepositoryStep::Finished(
                Err(TodoError::NotFound),
            ),
            (Pending::Delete, Fetched::Done) => RepositoryStep::Finished(
                Ok(RepositoryReply::Deleted),
            ),
            _ => RepositoryStep::Finished(Err(TodoError::Storage)),
        }
    }
}

} // verus!
