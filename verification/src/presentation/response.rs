//! What goes back to a client: a status, and a body that shows of a todo
//! only its identifier, title and state.
use crate::domain::todo::{Todo, TodoView};
use uuid::Uuid;
use vstd::prelude::*;
use vstd::std_specs::convert::FromSpecImpl;

verus! {

/// The statuses that the service answers with.
#[derive(Clone, Copy, Debug, PartialEq, Eq)]
pub enum Status {
    Success,
    Created,
    NoContent,
    NotFound,
    InternalServerError,
}

impl Status {
    /// The status code on the wire.
    pub open spec fn code_of(self) -> u16 {
        match self {
            Status::Success => 200,
            Status::Created => 201,
            Status::NoContent => 204,
            Status::NotFound => 404,
            Status::InternalServerError => 500,
        }
    }

    /// The status code on the wire.
    pub fn code(self) -> (code: u16)
        ensures
            code == self.code_of(),
    {
        match self {
            Status::Success => 200,
            Status::Created => 201,
            Status::NoContent => 204,
            Status::NotFound => 404,
            Status::InternalServerError => 500,
        }
    }
}

/// The name of the identifier on the wire.
pub const ID: &'static str = "id";

/// The name of the title on the wire.
pub const TITLE: &'static str = "title";

/// The name of the state on the wire.
pub const COMPLETED: &'static str = "completed";

/// A todo as a client sees it. The timestamps stay inside the service.
#[derive(Debug, PartialEq, Eq)]
pub struct TodoResponse {
    pub id: Uuid,
    pub title: String,
    pub completed: bool,
}

/// The mathematical value of a [`TodoResponse`].
pub struct TodoResponseView {
    pub id: Uuid,
    pub title: Seq<char>,
    pub completed: bool,
}

impl View for TodoResponse {
    type V = TodoResponseView;

    open spec fn view(&self) -> TodoResponseView {
        TodoResponseView { id: self.id, title: self.title@, completed: self.completed }
    }
}

impl TodoResponseView {
    /// What a client sees of `todo`.
    pub open spec fn of(todo: TodoView) -> TodoResponseView {
        TodoResponseView { id: todo.id, title: todo.title, completed: todo.completed }
    }

    /// What a client sees of each todo, in the same order.
    pub open spec fn of_all(todos: Seq<TodoView>) -> Seq<TodoResponseView> {
        todos.map_values(|todo: TodoView| TodoResponseView::of(todo))
    }

    /// The fields on the wire, by name and in order.
    pub open spec fn wire_fields(self) -> Seq<WireFieldView> {
        seq![
            WireFieldView { name: ID@, value: WireValueView::Id(self.id) },
            WireFieldView { name: TITLE@, value: WireValueView::Text(self.title) },
            WireFieldView { name: COMPLETED@, value: WireValueView::Flag(self.completed) },
        ]
    }
}

/// The values of a sequence of responses, in the same order.
pub open spec fn response_views(responses: Seq<TodoResponse>) -> Seq<TodoResponseView> {
    responses.map_values(|response: TodoResponse| response@)
}

impl From<Todo> for TodoResponse {
    fn from(todo: Todo) -> (response: Self) {
        Self { id: todo.id, title: todo.title, completed: todo.completed }
    }
}

impl FromSpecImpl<Todo> for TodoResponse {
    open spec fn obeys_from_spec() -> bool {
        true
    }

    open spec fn from_spec(todo: Todo) -> Self {
        TodoResponse { id: todo.id, title: todo.title, completed: todo.completed }
    }
}

/// The value of one field on the wire.
#[derive(Debug, PartialEq, Eq)]
pub enum WireValue {
    Id(Uuid),
    Text(String),
    Flag(bool),
}

/// The mathematical value of a [`WireValue`].
pub enum WireValueView {
    Id(Uuid),
    Text(Seq<char>),
    Flag(bool),
}

impl View for WireValue {
    type V = WireValueView;

    open spec fn view(&self) -> WireValueView {
        match self {
            WireValue::Id(id) => WireValueView::Id(*id),
            WireValue::Text(text) => WireValueView::Text(text@),
            WireValue::Flag(flag) => WireValueView::Flag(*flag),
        }
    }
}

/// One named field on the wire.
#[derive(Debug, PartialEq, Eq)]
pub struct WireField {
    pub name: &'static str,
    pub value: WireValue,
}

/// The mathematical value of a [`WireField`].
pub struct WireFieldView {
    pub name: Seq<char>,
    pub value: WireValueView,
}

impl View for WireField {
    type V = WireFieldView;

    open spec fn view(&self) -> WireFieldView {
        WireFieldView { name: self.name@, value: self.value@ }
    }
}

/// The values of a sequence of fields, in the same order.
pub open spec fn wire_field_views(fields: Seq<WireField>) -> Seq<WireFieldView> {
    fields.map_values(|field: WireField| field@)
}

impl TodoResponse {
    /// The fields to write on the wire, by name and in order. Nothing else
    /// of a todo is written.
    pub fn wire_fields(&self) -> (fields: Vec<WireField>)
        ensures
            wire_field_views(fields@) == self@.wire_fields(),
    {
        let fields = vec![
            WireField { name: ID, value: WireValue::Id(self.id) },
            WireField { name: TITLE, value: WireValue::Text(self.title.clone()) },
            WireField { name: COMPLETED, value: WireValue::Flag(self.completed) },
        ];
        assert(wire_field_views(fields@) =~= self@.wire_fields());
        fields
    }
}

/// No field that goes out for a todo is named after a timestamp: what is
/// written has exactly the names `id`, `title` and `completed`.
pub proof fn timestamps_stay_inside(response: TodoResponseView, at: int)
    requires
        0 <= at < response.wire_fields().len(),
    ensures
        response.wire_fields().len() == 3,
        response.wire_fields()[at].name == "id"@ || response.wire_fields()[at].name == "title"@
            || response.wire_fields()[at].name == "completed"@,
        response.wire_fields()[at].name != "created_at"@,
        response.wire_fields()[at].name != "updated_at"@,
{
    reveal_strlit("id");
    reveal_strlit("title");
    reveal_strlit("completed");
    reveal_strlit("created_at");
    reveal_strlit("updated_at");
    assert("id"@.len() == 2 && "title"@.len() == 5 && "completed"@.len() == 9);
    assert("created_at"@.len() == 10 && "updated_at"@.len() == 10);
}

/// The body of a response.
#[derive(Debug, PartialEq, Eq)]
pub enum Body {
    /// A list of todos.
    Todos(Vec<TodoResponse>),
    /// One todo.
    Todo(TodoResponse),
    /// A fixed message.
    Text(&'static str),
    /// Nothing.
    Empty,
}

/// The mathematical value of a [`Body`].
pub enum BodyView {
    Todos(Seq<TodoResponseView>),
    Todo(TodoResponseView),
    Text(Seq<char>),
    Empty,
}

impl View for Body {
    type V = BodyView;

    open spec fn view(&self) -> BodyView {
        match self {
            Body::Todos(todos) => BodyView::Todos(response_views(todos@)),
            Body::Todo(todo) => BodyView::Todo(todo@),
            Body::Text(text) => BodyView::Text(text@),
            Body::Empty => BodyView::Empty,
        }
    }
}

/// A status with a body.
#[derive(Debug, PartialEq, Eq)]
pub struct Response {
    pub status: Status,
    pub body: Body,
}

/// The mathematical value of a [`Response`].
pub struct ResponseView {
    pub status: Status,
    pub body: BodyView,
}

impl View for Response {
    type V = ResponseView;

    open spec fn view(&self) -> ResponseView {
        ResponseView { status: self.status, body: self.body@ }
    }
}

} // verus!
