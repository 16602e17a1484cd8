//! The routes of the service, and the response that each route gives for
//! each outcome of its use case.
use crate::domain::repository::{
    outcome_view, Outcome, OutcomeView, ReplyView, RepositoryReply, Table,
};
use crate::domain::todo::{todo_views, Todo, TodoError};
use crate::presentation::response::{
    response_views, Body, BodyView, Response, ResponseView, Status, TodoResponse, TodoResponseView,
};
use crate::usecase::guarantees::settles;
use crate::usecase::todo_usecase::{
    complete_todo_step, delete_todo_step, get_todo_by_id_step, update_todo_step,
};
use std::sync::Arc;
use uuid::Uuid;
use vstd::prelude::*;

verus! {

/// What every handler shares: the use cases.
#[derive(Clone)]
pub struct AppState<T> {
    pub todo_service: Arc<T>,
}

impl<T> AppState<T> {
    /// The state that shares `todo_service` among the handlers.
    pub fn new(todo_service: T) -> (state: Self)
        ensures
            *state.todo_service == todo_service,
    {
        AppState { todo_service: Arc::new(todo_service) }
    }
}

/// The request methods that the service routes.
#[derive(Clone, Copy, Debug, PartialEq, Eq)]
pub enum Method {
    Get,
    Post,
    Put,
    Delete,
}

/// The paths that the service routes, `{id}` standing for an identifier.
#[derive(Clone, Copy, Debug, PartialEq, Eq)]
pub enum RoutePath {
    /// `/todos`
    Todos,
    /// `/todos/{id}`
    Todo,
    /// `/todos/{id}/complete`
    TodoCompletion,
}

/// The use case behind a route.
#[derive(Clone, Copy, Debug, PartialEq, Eq)]
pub enum Operation {
    GetAllTodos,
    GetTodoById,
    CreateTodo,
    UpdateTodo,
    CompleteTodo,
    DeleteTodo,
}

/// One route: a method on a path, and the use case it leads to.
#[derive(Clone, Copy, Debug, PartialEq, Eq)]
pub struct Route {
    pub method: Method,
    pub path: RoutePath,
    pub operation: Operation,
}

/// The path of all todos.
pub const TODOS_PATH: &'static str = "/todos";

/// The path of one todo.
pub const TODO_PATH: &'static str = "/todos/{id}";

/// The path on which a todo is completed.
pub const TODO_COMPLETION_PATH: &'static str = "/todos/{id}/complete";

impl RoutePath {
    /// The path as a pattern.
    pub open spec fn pattern_of(self) -> Seq<char> {
        match self {
            RoutePath::Todos => TODOS_PATH@,
            RoutePath::Todo => TODO_PATH@,
            RoutePath::TodoCompletion => TODO_COMPLETION_PATH@,
        }
    }

    /// The path as a pattern.
    pub fn pattern(self) -> (pattern: &'static str)
        ensures
            pattern@ == self.pattern_of(),
    {
        match self {
            RoutePath::Todos => TODOS_PATH,
            RoutePath::Todo => TODO_PATH,
            RoutePath::TodoCompletion => TODO_COMPLETION_PATH,
        }
    }
}

/// The use case that a method on a path leads to, if the service routes it.
pub open spec fn operation_at(method: Method, path: RoutePath) -> Option<Operation> {
    match (path, method) {
        (RoutePath::Todos, Method::Get) => Some(Operation::GetAllTodos),
        (RoutePath::Todos, Method::Post) => Some(Operation::CreateTodo),
        (RoutePath::Todo, Method::Get) => Some(Operation::GetTodoById),
        (RoutePath::Todo, Method::Put) => Some(Operation::UpdateTodo),
        (RoutePath::Todo, Method::Delete) => Some(Operation::DeleteTodo),
        (RoutePath::TodoCompletion, Method::Put) => Some(Operation::CompleteTodo),
        _ => None,
    }
}

/// `table` holds the routes of the service: each entry leads to the use case
/// of its method and path, every method on a path that leads to a use case
/// has an entry, and no two entries share method and path.
pub open spec fn is_route_table(table: Seq<Route>) -> bool {
    &&& forall|i: int|
        0 <= i < table.len() ==> operation_at((#[trigger] table[i]).method, table[i].path) == Some(
            table[i].operation,
        )
    &&& forall|method: Method, path: RoutePath| #[trigger]
        operation_at(method, path) is Some ==> exists|i: int|
            0 <= i < table.len() && (#[trigger] table[i]).method == method && table[i].path == path
    &&& forall|i: int, j: int|
        0 <= i < j < table.len() ==> (#[trigger] table[i]).method != (#[trigger] table[j]).method
            || table[i].path != table[j].path
}

/// The routes of the service.
pub fn routes() -> (table: Vec<Route>)
    ensures
        is_route_table(table@),
{
    let table = vec![
        Route { method: Method::Get, path: RoutePath::Todos, operation: Operation::GetAllTodos },
        Route { method: Method::Post, path: RoutePath::Todos, operation: Operation::CreateTodo },
        Route { method: Method::Get, path: RoutePath::Todo, operation: Operation::GetTodoById },
        Route { method: Method::Put, path: RoutePath::Todo, operation: Operation::UpdateTodo },
        Route { method: Method::Delete, path: RoutePath::Todo, operation: Operation::DeleteTodo },
        Route {
            method: Method::Put,
            path: RoutePath::TodoCompletion,
            operation: Operation::CompleteTodo,
        },
    ];
    proof {
        assert forall|method: Method, path: RoutePath| #[trigger]
            operation_at(method, path) is Some implies exists|i: int|
            0 <= i < table.len() && (#[trigger] table[i]).method == method && table[i].path
                == path by {
            match operation_at(method, path) {
                Some(Operation::GetAllTodos) => assert(table[0].method == method),
                Some(Operation::CreateTodo) => assert(table[1].method == method),
                Some(Operation::GetTodoById) => assert(table[2].method == method),
                Some(Operation::UpdateTodo) => assert(table[3].method == method),
                Some(Operation::DeleteTodo) => assert(table[4].method == method),
                Some(Operation::CompleteTodo) => assert(table[5].method == method),
                None => {},
            }
        }
    }
    table
}

/// The router of the service as plain data: the state for the handlers and
/// the routes to register.
pub struct TodoRouter<T> {
    pub state: AppState<T>,
    pub routes: Vec<Route>,
}

/// The router in front of `todo_service`.
pub fn create_todo_router<T>(todo_service: T) -> (router: TodoRouter<T>)
    ensures
        *router.state.todo_service == todo_service,
        is_route_table(router.routes@),
{
    TodoRouter { state: AppState::new(todo_service), routes: routes() }
}

/// The message that goes out when an identifier names no todo.
pub const NOT_FOUND: &'static str = "Todo not found";

/// The message that goes out when the listing failed.
pub const GET_ALL_FAILED: &'static str = "Failed to fetch todos";

/// The message that goes out when the reading failed.
pub const GET_FAILED: &'static str = "Failed to fetch todo";

/// The message that goes out when the creation failed.
pub const CREATE_FAILED: &'static str = "Failed to create todo";

/// The message that goes out when the update failed.
pub const UPDATE_FAILED: &'static str = "Failed to update todo";

/// The message that goes out when the completion failed.
pub const COMPLETE_FAILED: &'static str = "Failed to complete todo";

/// The message that goes out when the removal failed.
pub const DELETE_FAILED: &'static str = "Failed to delete todo";

impl Operation {
    /// Whether the route of this use case names one todo, so that the
    /// identifier can turn out to name none.
    pub open spec fn names_a_todo(self) -> bool {
        !(self is GetAllTodos || self is CreateTodo)
    }

    /// The message for a failure of this use case. It says which use case
    /// failed and nothing of why.
    pub open spec fn failure_message(self) -> Seq<char> {
        match self {
            Operation::GetAllTodos => GET_ALL_FAILED@,
            Operation::GetTodoById => GET_FAILED@,
            Operation::CreateTodo => CREATE_FAILED@,
            Operation::UpdateTodo => UPDATE_FAILED@,
            Operation::CompleteTodo => COMPLETE_FAILED@,
            Operation::DeleteTodo => DELETE_FAILED@,
        }
    }
}

/// The response of a route whose use case ended with `outcome`.
///
/// The reply that the use case is meant to end with gives the success of the
/// route: 200 with the list, 200 with the todo, 201 with the todo for a
/// creation, 204 without a body for a removal. On a route that names one
/// todo, a todo that is absent and the error `NotFound` give 404. All else,
/// every other error and every reply of another shape, gives 500 with the
/// fixed message of the route.
pub open spec fn response_for(operation: Operation, outcome: OutcomeView) -> ResponseView {
    match (operation, outcome) {
        (Operation::GetAllTodos, Ok(ReplyView::Todos(todos))) => ResponseView {
            status: Status::Success,
            body: BodyView::Todos(TodoResponseView::of_all(todos)),
        },
        (Operation::GetTodoById, Ok(ReplyView::Found(Some(todo)))) => ResponseView {
            status: Status::Success,
            body: BodyView::Todo(TodoResponseView::of(todo)),
        },
        (Operation::GetTodoById, Ok(ReplyView::Found(None))) => not_found(),
        (Operation::CreateTodo, Ok(ReplyView::Stored(todo))) => ResponseView {
            status: Status::Created,
            body: BodyView::Todo(TodoResponseView::of(todo)),
        },
        (Operation::UpdateTodo, Ok(ReplyView::Stored(todo))) => ResponseView {
            status: Status::Success,
            body: BodyView::Todo(TodoResponseView::of(todo)),
        },
        (Operation::CompleteTodo, Ok(ReplyView::Stored(todo))) => ResponseView {
            status: Status::Success,
            body: BodyView::Todo(TodoResponseView::of(todo)),
        },
        (Operation::DeleteTodo, Ok(ReplyView::Deleted)) => ResponseView {
            status: Status::NoContent,
            body: BodyView::Empty,
        },
        (_, Err(TodoError::NotFound)) => if operation.names_a_todo() {
            not_found()
        } else {
            failure(operation)
        },
        _ => failure(operation),
    }
}

/// The response for an identifier that names no todo.
pub open spec fn not_found() -> ResponseView {
    ResponseView { status: Status::NotFound, body: BodyView::Text(NOT_FOUND@) }
}

/// The response for a failure of `operation`.
pub open spec fn failure(operation: Operation) -> ResponseView {
    ResponseView {
        status: Status::InternalServerError,
        body: BodyView::Text(operation.failure_message()),
    }
}

/// On every route that names one todo, the error `NotFound` goes out as
/// status 404, and so does the absent value on the route that reads a todo.
/// On no route does another error go out as anything but status 500.
pub proof fn unknown_todo_gives_404(operation: Operation, error: TodoError)
    ensures
        operation.names_a_todo() ==> response_for(operation, Err(TodoError::NotFound)).status.code_of()
            == 404,
        response_for(Operation::GetTodoById, Ok(ReplyView::Found(None))).status.code_of() == 404,
        error != TodoError::NotFound ==> response_for(operation, Err(error)).status.code_of() == 500,
        response_for(operation, Err(error)).body is Text,
{
}

/// What a client gets for an identifier that no todo has: status 404 with
/// the message that the todo was not found when the todo is read, updated
/// or completed, and status 204 when it is deleted, for a deletion succeeds
/// whether or not there was a todo.
pub proof fn unknown_todo_as_the_client_sees_it(
    id: Uuid,
    title: Seq<char>,
    completed: bool,
    now: i64,
    before: Table,
    clock: i64,
    outcome: OutcomeView,
    after: Table,
)
    requires
        !before.contains_key(id),
        title.len() > 0,
    ensures
        settles(get_todo_by_id_step(id), before, clock, outcome, after) ==> response_for(
            Operation::GetTodoById,
            outcome,
        ) == not_found(),
        settles(update_todo_step(id, title, completed, now), before, clock, outcome, after)
            ==> response_for(Operation::UpdateTodo, outcome) == not_found(),
        settles(complete_todo_step(id), before, clock, outcome, after) ==> response_for(
            Operation::CompleteTodo,
            outcome,
        ) == not_found(),
        settles(delete_todo_step(id), before, clock, outcome, after) ==> response_for(
            Operation::DeleteTodo,
            outcome,
        ).status.code_of() == 204,
        not_found().status.code_of() == 404,
{
    reveal_with_fuel(settles, 3);
}

impl Operation {
    /// The message for a failure of this use case.
    pub fn failure_text(self) -> (message: &'static str)
        ensures
            message@ == self.failure_message(),
    {
        match self {
            Operation::GetAllTodos => GET_ALL_FAILED,
            Operation::GetTodoById => GET_FAILED,
            Operation::CreateTodo => CREATE_FAILED,
            Operation::UpdateTodo => UPDATE_FAILED,
            Operation::CompleteTodo => COMPLETE_FAILED,
            Operation::DeleteTodo => DELETE_FAILED,
        }
    }
}

/// The response for an identifier that names no todo.
fn not_found_response() -> (response: Response)
    ensures
        response@ == not_found(),
{
    Response { status: Status::NotFound, body: Body::Text(NOT_FOUND) }
}

/// The response for a failure of `operation`.
fn failure_response(operation: Operation) -> (response: Response)
    ensures
        response@ == failure(operation),
{
    Response { status: Status::InternalServerError, body: Body::Text(operation.failure_text()) }
}

/// A status with one todo as a client sees it.
fn todo_response(status: Status, todo: Todo) -> (response: Response)
    ensures
        response@ == (ResponseView { status, body: BodyView::Todo(TodoResponseView::of(todo@)) }),
{
    Response { status, body: Body::Todo(TodoResponse::from(todo)) }
}

/// Each todo as a client sees it, in the same order.
fn todo_responses(todos: Vec<Todo>) -> (responses: Vec<TodoResponse>)
    ensures
        response_views(responses@) == TodoResponseView::of_all(todo_views(todos@)),
{
    let mut responses: Vec<TodoResponse> = Vec::new();
    let mut at: usize = 0;
    while at < todos.len()
        invariant
            at <= todos.len(),
            responses.len() == at,
            forall|i: int| 0 <= i < at ==> (#[trigger] responses[i])@ == TodoResponseView::of(todos[i]@),
        decreases todos.len() - at,
    {
        responses.push(TodoResponse::from(todos[at].clone()));
        at += 1;
    }
    assert(response_views(responses@) =~= TodoResponseView::of_all(todo_views(todos@)));
    responses
}

/// The response of `GET /todos`.
pub fn get_all_todos(outcome: Outcome) -> (response: Response)
    ensures
        response@ == response_for(Operation::GetAllTodos, outcome_view(outcome)),
{
    match outcome {
        Ok(RepositoryReply::Todos(todos)) => Response {
            status: Status::Success,
            body: Body::Todos(todo_responses(todos)),
        },
        _ => failure_response(Operation::GetAllTodos),
    }
}

/// The response of `GET /todos/{id}`.
pub fn get_todo_by_id(outcome: Outcome) -> (response: Response)
    ensures
        response@ == response_for(Operation::GetTodoById, outcome_view(outcome)),
{
    match outcome {
        Ok(RepositoryReply::Found(Some(todo))) => todo_response(Status::Success, todo),
        Ok(RepositoryReply::Found(None)) => not_found_response(),
        Err(TodoError::NotFound) => not_found_response(),
        _ => failure_response(Operation::GetTodoById),
    }
}

/// The response of `POST /todos`.
pub fn create_todo(outcome: Outcome) -> (response: Response)
    ensures
        response@ == response_for(Operation::CreateTodo, outcome_view(outcome)),
{
    match outcome {
        Ok(RepositoryReply::Stored(todo)) => todo_response(Status::Created, todo),
        _ => failure_response(Operation::CreateTodo),
    }
}

/// The response of `PUT /todos/{id}`.
pub fn update_todo(outcome: Outcome) -> (response: Response)
    ensures
        response@ == response_for(Operation::UpdateTodo, outcome_view(outcome)),
{
    match outcome {
        Ok(RepositoryReply::Stored(todo)) => todo_response(Status::Success, todo),
        Err(TodoError::NotFound) => not_found_response(),
        _ => failure_response(Operation::UpdateTodo),
    }
}

/// The response of `PUT /todos/{id}/complete`.
pub fn complete_todo(outcome: Outcome) -> (response: Response)
    ensures
        response@ == response_for(Operation::CompleteTodo, outcome_view(outcome)),
{
    match outcome {
        Ok(RepositoryReply::Stored(todo)) => todo_response(Status::Success, todo),
        Err(TodoError::NotFound) => not_found_response(),
        _ => failure_response(Operation::CompleteTodo),
    }
}

/// The response of `DELETE /todos/{id}`.
pub fn delete_todo(outcome: Outcome) -> (response: Response)
    ensures
        response@ == response_for(Operation::DeleteTodo, outcome_view(outcome)),
{
    match outcome {
        Ok(RepositoryReply::Deleted) => Response { status: Status::NoContent, body: Body::Empty },
        Err(TodoError::NotFound) => not_found_response(),
        _ => failure_response(Operation::DeleteTodo),
    }
}

} // verus!
