//! The todo record, its invariants and the ways a request can fail.
use uuid::Uuid;
use vstd::prelude::*;

verus! {

/// `uuid::Uuid`, carried through as an opaque identifier. Two identifiers are
/// the same todo exactly when they are equal.
#[verifier::external_type_specification]
#[verifier::external_body]
pub struct ExUuid(uuid::Uuid);

/// Why a request did not produce its result.
#[derive(Clone, Copy, Debug, PartialEq, Eq)]
pub enum TodoError {
    /// The store could not be reached or answered out of turn.
    Storage,
    /// No todo has the identifier that the request names.
    NotFound,
    /// The request carries a title without any character.
    Validation,
}

/// One todo as the store holds it. Timestamps count microseconds since the
/// Unix epoch.
#[derive(Debug, PartialEq, Eq)]
pub struct Todo {
    pub id: Uuid,
    pub title: String,
    pub completed: bool,
    pub created_at: i64,
    pub updated_at: i64,
}

/// The mathematical value of a [`Todo`].
pub struct TodoView {
    pub id: Uuid,
    pub title: Seq<char>,
    pub completed: bool,
    pub created_at: i64,
    pub updated_at: i64,
}

impl TodoView {
    /// The invariant of a record: a title with at least one character, and a
    /// last change that is not older than the creation.
    pub open spec fn well_formed(self) -> bool {
        &&& self.title.len() > 0
        &&& self.created_at <= self.updated_at
    }

    /// The record a creation at time `now` yields.
    pub open spec fn fresh(id: Uuid, title: Seq<char>, now: i64) -> TodoView {
        TodoView { id, title, completed: false, created_at: now, updated_at: now }
    }

    /// The field set that an update carries: the fields a caller may change,
    /// with timestamps that the store is free to replace.
    pub open spec fn replacement(id: Uuid, title: Seq<char>, completed: bool, now: i64) -> TodoView {
        TodoView { id, title, completed, created_at: now, updated_at: now }
    }

    /// This record in the completed state, all else unchanged.
    pub open spec fn mark_completed(self) -> TodoView {
        TodoView { completed: true, ..self }
    }
}

impl View for Todo {
    type V = TodoView;

    open spec fn view(&self) -> TodoView {
        TodoView {
            id: self.id,
            title: self.title@,
            completed: self.completed,
            created_at: self.created_at,
            updated_at: self.updated_at,
        }
    }
}

/// The values of a sequence of todos, in the same order.
pub open spec fn todo_views(todos: Seq<Todo>) -> Seq<TodoView> {
    todos.map_values(|todo: Todo| todo@)
}

/// The value of a todo that may be absent.
pub open spec fn optional_view(todo: Option<Todo>) -> Option<TodoView> {
    match todo {
        Some(todo) => Some(todo@),
        None => None,
    }
}

impl Clone for Todo {
    fn clone(&self) -> (copy: Self)
        ensures
            copy == *self,
    {
        Todo {
            id: self.id,
            title: self.title.clone(),
            completed: self.completed,
            created_at: self.created_at,
            updated_at: self.updated_at,
        }
    }
}

impl Todo {
    /// A new open todo, created and last changed at `now`. A title without
    /// characters is refused.
    pub fn new(id: Uuid, title: String, now: i64) -> (made: Result<Todo, TodoError>)
        ensures
            title@.len() == 0 <==> made is Err,
            made is Err ==> made == Err::<Todo, TodoError>(TodoError::Validation),
            made matches Ok(todo) ==> todo@ == TodoView::fresh(id, title@, now) && todo@.well_formed(),
    {
        if title.as_str().is_empty() {
            Err(TodoError::Validation)
        } else {
            Ok(Todo { id, title, completed: false, created_at: now, updated_at: now })
        }
    }

    /// The field set for an update of the todo `id`, stamped `now`. A title
    /// without characters is refused.
    pub fn replacement(id: Uuid, title: String, completed: bool, now: i64) -> (made: Result<
        Todo,
        TodoError,
    >)
        ensures
            title@.len() == 0 <==> made is Err,
            made is Err ==> made == Err::<Todo, TodoError>(TodoError::Validation),
            made matches Ok(todo) ==> todo@ == TodoView::replacement(id, title@, completed, now)
                && todo@.well_formed(),
    {
        if title.as_str().is_empty() {
            Err(TodoError::Validation)
        } else {
            Ok(Todo { id, title, completed, created_at: now, updated_at: now })
        }
    }

    /// The same todo in the completed state.
    pub fn mark_completed(self) -> (done: Todo)
        ensures
            done@ == self@.mark_completed(),
            self@.well_formed() ==> done@.well_formed(),
    {
        Todo {
            id: self.id,
            title: self.title,
            completed: true,
            created_at: self.created_at,
            updated_at: self.updated_at,
        }
    }
}

} // verus!
