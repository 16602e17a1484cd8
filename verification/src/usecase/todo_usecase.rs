//! What it means to list, read, create, update, complete and delete a todo.
//!
//! Each use case is a short exchange with a store: it names the request to
//! send, and decides from the outcome what to do next. The store is known
//! only by its requests and replies, so the use cases hold for any backend.
use crate::domain::repository::{
    outcome_view, Outcome, OutcomeView, ReplyView, RepositoryReply, RepositoryRequest, RequestView,
};
use crate::domain::todo::{Todo, TodoError, TodoView};
use uuid::Uuid;
use vstd::prelude::*;

verus! {

/// `uuid::Uuid::new_v4`: a random identifier. Nothing is claimed of the value.
pub assume_specification[ uuid::Uuid::new_v4 ]() -> Uuid;

/// The clock of this machine, `std::time::SystemTime::now`, turned into a
/// `chrono::DateTime<Utc>` by chrono's `From<SystemTime>` and read as
/// microseconds since the Unix epoch (`DateTime::timestamp_micros`). Nothing
/// is claimed of the reading. The conversion takes a clock that is set before
/// the epoch too: such a reading comes out negative. It holds every time of
/// chrono's calendar, which reaches some 262,000 years to either side of the
/// epoch.
#[verifier::external_body]
fn current_micros() -> i64 {
    chrono::DateTime::<chrono::Utc>::from(std::time::SystemTime::now()).timestamp_micros()
}

/// What a use case does with the outcome of the request that is out.
#[derive(Clone, Copy, Debug, PartialEq, Eq)]
pub enum Awaiting {
    /// The outcome of the request is the outcome of the use case.
    Relay,
    /// The todo that is to be completed is being read.
    CompleteRead,
}

/// What a use case wants next.
#[derive(Debug, PartialEq, Eq)]
pub enum ServiceStep {
    /// Send the request to the store and come back with its outcome.
    Call(RepositoryRequest, Awaiting),
    /// The use case has ended.
    Finished(Outcome),
}

/// The mathematical value of a [`ServiceStep`].
pub enum ServiceStepView {
    Call(RequestView, Awaiting),
    Finished(OutcomeView),
}

impl View for ServiceStep {
    type V = ServiceStepView;

    open spec fn view(&self) -> ServiceStepView {
        match self {
            ServiceStep::Call(request, awaiting) => ServiceStepView::Call(request@, *awaiting),
            ServiceStep::Finished(outcome) => ServiceStepView::Finished(outcome_view(*outcome)),
        }
    }
}

/// Listing asks the store for all todos and relays the answer.
pub open spec fn get_all_todos_step() -> ServiceStepView {
    ServiceStepView::Call(RequestView::FindAll, Awaiting::Relay)
}

/// Reading asks the store for the todo and relays the answer, absent or not.
pub open spec fn get_todo_by_id_step(id: Uuid) -> ServiceStepView {
    ServiceStepView::Call(RequestView::FindById(id), Awaiting::Relay)
}

/// Creating refuses a title without characters before anything is sent.
/// Otherwise it asks the store to keep an open todo with the given
/// identifier, created and last changed at `now`.
pub open spec fn create_todo_step(id: Uuid, title: Seq<char>, now: i64) -> ServiceStepView {
    if title.len() == 0 {
        ServiceStepView::Finished(Err(TodoError::Validation))
    } else {
        ServiceStepView::Call(RequestView::Create(TodoView::fresh(id, title, now)), Awaiting::Relay)
    }
}

/// Updating refuses a title without characters before anything is sent.
/// Otherwise it asks the store to give the todo the title and the state.
pub open spec fn update_todo_step(id: Uuid, title: Seq<char>, completed: bool, now: i64) -> ServiceStepView {
    if title.len() == 0 {
        ServiceStepView::Finished(Err(TodoError::Validation))
    } else {
        ServiceStepView::Call(
            RequestView::Update(TodoView::replacement(id, title, completed, now)),
            Awaiting::Relay,
        )
    }
}

/// Completing starts by reading the todo.
pub open spec fn complete_todo_step(id: Uuid) -> ServiceStepView {
    ServiceStepView::Call(RequestView::FindById(id), Awaiting::CompleteRead)
}

/// Deleting asks the store to remove the todo and relays the answer.
pub open spec fn delete_todo_step(id: Uuid) -> ServiceStepView {
    ServiceStepView::Call(RequestView::Delete(id), Awaiting::Relay)
}

/// The step that follows when the store has answered with `outcome`.
///
/// A relayed outcome ends the use case as it is, errors included. The read
/// of a completion is followed by an update of the todo just read, with the
/// state set to completed and the title as read; where the todo is absent
/// the use case ends with `NotFound`, an error of the store ends it with
/// that error, and a reply of another shape with a storage error.
pub open spec fn step_after(awaiting: Awaiting, outcome: OutcomeView) -> ServiceStepView {
    match awaiting {
        Awaiting::Relay => ServiceStepView::Finished(outcome),
        Awaiting::CompleteRead => match outcome {
            Ok(ReplyView::Found(Some(todo))) => ServiceStepView::Call(
                RequestView::Update(todo.mark_completed()),
                Awaiting::Relay,
            ),
            Ok(ReplyView::Found(None)) => ServiceStepView::Finished(Err(TodoError::NotFound)),
            Ok(_) => ServiceStepView::Finished(Err(TodoError::Storage)),
            Err(error) => ServiceStepView::Finished(Err(error)),
        },
    }
}

/// The use cases, around the store adapter that their requests are meant
/// for. The adapter is only kept; the use cases do not depend on it.
#[derive(Clone)]
pub struct TodoUsecase<R> {
    pub repository: R,
}

impl<R> TodoUsecase<R> {
    /// The use cases in front of `repository`.
    pub fn new(repository: R) -> (service: Self)
        ensures
            service.repository == repository,
    {
        Self { repository }
    }

    /// Starts the listing of all todos.
    pub fn get_all_todos(&self) -> (step: ServiceStep)
        ensures
            step@ == get_all_todos_step(),
    {
        ServiceStep::Call(RepositoryRequest::FindAll, Awaiting::Relay)
    }

    /// Starts the reading of the todo `id`.
    pub fn get_todo_by_id(&self, id: Uuid) -> (step: ServiceStep)
        ensures
            step@ == get_todo_by_id_step(id),
    {
        ServiceStep::Call(RepositoryRequest::FindById(id), Awaiting::Relay)
    }

    /// Starts the creation of a todo titled `title`, under a random
    /// identifier and stamped with the current time.
    pub fn create_todo(&self, title: String) -> (step: ServiceStep)
        ensures
            exists|id: Uuid, now: i64| step@ == create_todo_step(id, title@, now),
    {
        let id = Uuid::new_v4();
        let now = current_micros();
        self.create_todo_with(id, title, now)
    }

    /// Starts the creation of a todo titled `title` under the identifier `id`,
    /// stamped `now`.
    pub fn create_todo_with(&self, id: Uuid, title: String, now: i64) -> (step: ServiceStep)
        ensures
            step@ == create_todo_step(id, title@, now),
    {
        match Todo::new(id, title, now) {
            Ok(todo) => ServiceStep::Call(RepositoryRequest::Create(todo), Awaiting::Relay),
            Err(error) => ServiceStep::Finished(Err(error)),
        }
    }

    /// Starts the update of the todo `id` to `title` and `completed`.
    pub fn update_todo(&self, id: Uuid, title: String, completed: bool) -> (step: ServiceStep)
        ensures
            exists|now: i64| step@ == update_todo_step(id, title@, completed, now),
    {
        let now = current_micros();
        self.update_todo_at(id, title, completed, now)
    }

    /// Starts the update of the todo `id` to `title` and `completed`, the
    /// request stamped `now`.
    pub fn update_todo_at(&self, id: Uuid, title: String, completed: bool, now: i64) -> (step:
        ServiceStep)
        ensures
            step@ == update_todo_step(id, title@, completed, now),
    {
        match Todo::replacement(id, title, completed, now) {
            Ok(todo) => ServiceStep::Call(RepositoryRequest::Update(todo), Awaiting::Relay),
            Err(error) => ServiceStep::Finished(Err(error)),
        }
    }

    /// Starts the completion of the todo `id`.
    pub fn complete_todo(&self, id: Uuid) -> (step: ServiceStep)
        ensures
            step@ == complete_todo_step(id),
    {
        ServiceStep::Call(RepositoryRequest::FindById(id), Awaiting::CompleteRead)
    }

    /// Starts the removal of the todo `id`.
    pub fn delete_todo(&self, id: Uuid) -> (step: ServiceStep)
        ensures
            step@ == delete_todo_step(id),
    {
        ServiceStep::Call(RepositoryRequest::Delete(id), Awaiting::Relay)
    }

    /// Goes on after the store has answered the request that was out with
    /// `outcome`.
    pub fn resume(&self, awaiting: Awaiting, outcome: Outcome) -> (step: ServiceStep)
        ensures
            step@ == step_after(awaiting, outcome_view(outcome)),
    {
        match awaiting {
            Awaiting::Relay => ServiceStep::Finished(outcome),
            Awaiting::CompleteRead => match outcome {
                Ok(RepositoryReply::Found(Some(todo))) => ServiceStep::Call(
                    RepositoryRequest::Update(todo.mark_completed()),
                    Awaiting::Relay,
                ),
                Ok(RepositoryReply::Found(None)) => ServiceStep::Finished(Err(TodoError::NotFound)),
                Ok(_) => ServiceStep::Finished(Err(TodoError::Storage)),
                Err(error) => ServiceStep::Finished(Err(error)),
            },
        }
    }
}

} // verus!
