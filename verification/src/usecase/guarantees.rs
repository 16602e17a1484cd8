//! What the use cases guarantee in front of any store that answers as a todo
//! store must.
use crate::domain::repository::{
    all_well_formed, an_answer_exists, is_listing, reply_fits, row_at, table_after, OutcomeView,
    ReplyView, Table,
};
use crate::domain::todo::{TodoError, TodoView};
use crate::usecase::todo_usecase::{
    complete_todo_step, create_todo_step, delete_todo_step, get_all_todos_step,
    get_todo_by_id_step, step_after, update_todo_step, Awaiting, ServiceStepView,
};
use uuid::Uuid;
use vstd::prelude::*;

verus! {

/// The most requests that can still go out from `step` on.
pub open spec fn requests_left(step: ServiceStepView) -> nat {
    match step {
        ServiceStepView::Finished(_) => 0,
        ServiceStepView::Call(_, Awaiting::CompleteRead) => 2,
        ServiceStepView::Call(_, Awaiting::Relay) => 1,
    }
}

/// From `step`, with a store that holds `before` and answers every request
/// as [`reply_fits`] allows, the use case can end with `outcome` and leave
/// the store holding `after`. The clock of the store reads `clock`
/// throughout, and nobody else writes to the store meanwhile: between the
/// read and the write of a completion the store is not protected from other
/// writers, and what they change in that gap is outside of this relation.
pub open spec fn settles(
    step: ServiceStepView,
    before: Table,
    clock: i64,
    outcome: OutcomeView,
    after: Table,
) -> bool
    decreases requests_left(step),
{
    match step {
        ServiceStepView::Finished(ended) => ended == outcome && after == before,
        ServiceStepView::Call(request, awaiting) => exists|reply: OutcomeView|
            {
                &&& #[trigger] reply_fits(before, request, clock, reply)
                &&& settles(
                    step_after(awaiting, reply),
                    table_after(before, request, clock),
                    clock,
                    outcome,
                    after,
                )
            },
    }
}

/// In front of a store of finitely many todos every step leads to an end:
/// there is an outcome that the use case settles with.
pub proof fn every_use_case_ends(step: ServiceStepView, before: Table, clock: i64) -> (end: (
    OutcomeView,
    Table,
))
    requires
        before.dom().finite(),
    ensures
        settles(step, before, clock, end.0, end.1),
        end.1.dom().finite(),
    decreases requests_left(step),
{
    match step {
        ServiceStepView::Finished(ended) => (ended, before),
        ServiceStepView::Call(request, awaiting) => {
            let reply = an_answer_exists(before, request, clock);
            let end = every_use_case_ends(
                step_after(awaiting, reply),
                table_after(before, request, clock),
                clock,
            );
            assert(reply_fits(before, request, clock, reply));
            end
        },
    }
}

/// An error of the store ends every use case with that same error, whatever
/// the use case was waiting for. Nothing is tried again.
pub proof fn store_errors_pass_unchanged(awaiting: Awaiting, error: TodoError)
    ensures
        step_after(awaiting, Err(error)) == ServiceStepView::Finished(Err(error)),
{
}

/// The listing of a store that holds nothing is the empty list, not an
/// error.
pub proof fn listing_of_nothing_is_empty(clock: i64, outcome: OutcomeView, after: Table)
    requires
        settles(get_all_todos_step(), Map::empty(), clock, outcome, after),
    ensures
        outcome == Ok::<ReplyView, TodoError>(ReplyView::Todos(Seq::empty())),
        after == Map::<Uuid, TodoView>::empty(),
{
    reveal_with_fuel(settles, 3);
    let rows = (outcome->Ok_0)->Todos_0;
    assert(is_listing(Map::empty(), rows));
    if rows.len() > 0 {
        assert(Map::<Uuid, TodoView>::empty().contains_key(rows[0].id));
    }
    assert(rows =~= Seq::empty());
}

/// A todo that was created is found under its identifier as it was created:
/// with the title given, open, and stamped with the time of its creation.
pub proof fn created_todo_is_found(
    id: Uuid,
    title: Seq<char>,
    now: i64,
    before: Table,
    created: OutcomeView,
    between: Table,
    found: OutcomeView,
    after: Table,
    clock: i64,
    later: i64,
)
    requires
        settles(create_todo_step(id, title, now), before, clock, created, between),
        created is Ok,
        settles(get_todo_by_id_step(id), between, later, found, after),
    ensures
        created == Ok::<ReplyView, TodoError>(ReplyView::Stored(TodoView::fresh(id, title, now))),
        found == Ok::<ReplyView, TodoError>(
            ReplyView::Found(Some(TodoView::fresh(id, title, now))),
        ),
        TodoView::fresh(id, title, now).well_formed(),
        after == between,
{
    reveal_with_fuel(settles, 3);
}

/// Deleting always succeeds, and deleting again changes nothing: after the
/// first deletion the todo is gone and every other todo is as before, and the
/// second deletion leaves the store as the first left it. Where no todo had
/// the identifier, the first deletion changes nothing either.
pub proof fn delete_is_idempotent(
    id: Uuid,
    before: Table,
    first: OutcomeView,
    between: Table,
    second: OutcomeView,
    after: Table,
    clock: i64,
    later: i64,
)
    requires
        settles(delete_todo_step(id), before, clock, first, between),
        settles(delete_todo_step(id), between, later, second, after),
    ensures
        first == Ok::<ReplyView, TodoError>(ReplyView::Deleted),
        second == Ok::<ReplyView, TodoError>(ReplyView::Deleted),
        between == before.remove(id),
        after == between,
        !before.contains_key(id) ==> between == before,
{
    reveal_with_fuel(settles, 3);
    assert(between.remove(id) =~= between);
    if !before.contains_key(id) {
        assert(before.remove(id) =~= before);
    }
}

/// The table `after` holds under `id` what `before` holds there, or nothing
/// where `before` holds nothing.
pub open spec fn lookup_same(before: Table, after: Table, id: Uuid) -> bool {
    &&& before.contains_key(id) == after.contains_key(id)
    &&& before.contains_key(id) ==> before[id] == after[id]
}

/// An update of a stored todo answers with that todo under the same
/// identifier and with the same time of creation, with the new title and
/// state, and with the time of last change that the clock of the store gave
/// it. Where that clock has moved on since the last change, the new time of
/// last change is strictly later than the old. The store holds what was
/// answered, and every other todo as before.
pub proof fn update_keeps_identity(
    id: Uuid,
    title: Seq<char>,
    completed: bool,
    now: i64,
    before: Table,
    clock: i64,
    outcome: OutcomeView,
    after: Table,
)
    requires
        before.contains_key(id),
        title.len() > 0,
        settles(update_todo_step(id, title, completed, now), before, clock, outcome, after),
    ensures
        outcome == Ok::<ReplyView, TodoError>(
            ReplyView::Stored(
                TodoView {
                    id,
                    title,
                    completed,
                    created_at: row_at(before, id).created_at,
                    updated_at: clock,
                },
            ),
        ),
        clock > row_at(before, id).updated_at ==> (outcome->Ok_0)->Stored_0.updated_at > row_at(
            before,
            id,
        ).updated_at,
        after.contains_key(id),
        row_at(after, id) == (outcome->Ok_0)->Stored_0,
        forall|other: Uuid| other != id ==> lookup_same(before, after, other),
{
    reveal_with_fuel(settles, 3);
}

/// Completing a stored todo answers with that todo in the completed state:
/// identifier, title and time of creation are those it had, and the time of
/// last change is the one that the clock of the store gave it. The store
/// holds what was answered.
pub proof fn complete_keeps_title(
    id: Uuid,
    before: Table,
    clock: i64,
    outcome: OutcomeView,
    after: Table,
)
    requires
        before.contains_key(id),
        settles(complete_todo_step(id), before, clock, outcome, after),
    ensures
        outcome == Ok::<ReplyView, TodoError>(
            ReplyView::Stored(
                TodoView { completed: true, updated_at: clock, ..row_at(before, id) },
            ),
        ),
        after.contains_key(id),
        row_at(after, id) == (outcome->Ok_0)->Stored_0,
{
    reveal_with_fuel(settles, 3);
}

/// Reading an identifier that no todo has answers with the absent value, not
/// with an error, and changes nothing.
pub proof fn get_of_unknown_is_absent(
    id: Uuid,
    before: Table,
    clock: i64,
    outcome: OutcomeView,
    after: Table,
)
    requires
        !before.contains_key(id),
        settles(get_todo_by_id_step(id), before, clock, outcome, after),
    ensures
        outcome == Ok::<ReplyView, TodoError>(ReplyView::Found(None)),
        after == before,
{
    reveal_with_fuel(settles, 3);
}

/// Updating an identifier that no todo has ends with `NotFound` and changes
/// nothing.
pub proof fn update_of_unknown_is_not_found(
    id: Uuid,
    title: Seq<char>,
    completed: bool,
    now: i64,
    before: Table,
    clock: i64,
    outcome: OutcomeView,
    after: Table,
)
    requires
        !before.contains_key(id),
        title.len() > 0,
        settles(update_todo_step(id, title, completed, now), before, clock, outcome, after),
    ensures
        outcome == Err::<ReplyView, TodoError>(TodoError::NotFound),
        after == before,
{
    reveal_with_fuel(settles, 3);
}

/// Completing an identifier that no todo has ends with `NotFound` and changes
/// nothing.
pub proof fn complete_of_unknown_is_not_found(
    id: Uuid,
    before: Table,
    clock: i64,
    outcome: OutcomeView,
    after: Table,
)
    requires
        !before.contains_key(id),
        settles(complete_todo_step(id), before, clock, outcome, after),
    ensures
        outcome == Err::<ReplyView, TodoError>(TodoError::NotFound),
        after == before,
{
    reveal_with_fuel(settles, 3);
}

/// A title without characters is refused before anything reaches the store,
/// on creation and on update alike.
pub proof fn empty_title_is_refused(
    id: Uuid,
    completed: bool,
    now: i64,
    before: Table,
    clock: i64,
    outcome: OutcomeView,
    after: Table,
)
    requires
        settles(create_todo_step(id, Seq::empty(), now), before, clock, outcome, after) || settles(
            update_todo_step(id, Seq::empty(), completed, now),
            before,
            clock,
            outcome,
            after,
        ),
    ensures
        outcome == Err::<ReplyView, TodoError>(TodoError::Validation),
        after == before,
{
    reveal_with_fuel(settles, 3);
}

/// The invariant of the records holds under the use cases: where every
/// stored todo is well formed and the clock of the store does not read
/// earlier than the creation of any of them, every stored todo is well
/// formed after a use case has ended, whichever it was and however it ended.
pub proof fn use_cases_keep_todos_well_formed(
    step: ServiceStepView,
    id: Uuid,
    title: Seq<char>,
    completed: bool,
    now: i64,
    before: Table,
    clock: i64,
    outcome: OutcomeView,
    after: Table,
)
    requires
        step == get_all_todos_step() || step == get_todo_by_id_step(id) || step == create_todo_step(
            id,
            title,
            now,
        ) || step == update_todo_step(id, title, completed, now) || step == complete_todo_step(id)
            || step == delete_todo_step(id),
        all_well_formed(before),
        forall|stored: Uuid| #[trigger]
            before.contains_key(stored) ==> row_at(before, stored).created_at <= clock,
        settles(step, before, clock, outcome, after),
    ensures
        all_well_formed(after),
{
    reveal_with_fuel(settles, 3);
}

/// `todo` stands in `rows` at exactly one place, and nowhere else does a row
/// carry its identifier.
pub open spec fn occurs_once(rows: Seq<TodoView>, todo: TodoView) -> bool {
    exists|at: int|
        {
            &&& 0 <= at < rows.len()
            &&& #[trigger] rows[at] == todo
            &&& forall|other: int|
                0 <= other < rows.len() && (#[trigger] rows[other]).id == todo.id ==> other == at
        }
}

/// `todos` were created one after the other, each creation ending with
/// success: `tables[i]` is what the store held before the creation of
/// `todos[i]`, and `tables[i + 1]` what it held after.
pub open spec fn created_in_turn(todos: Seq<TodoView>, tables: Seq<Table>, clocks: Seq<i64>) -> bool {
    &&& tables.len() == todos.len() + 1
    &&& clocks.len() == todos.len()
    &&& forall|i: int|
        0 <= i < todos.len() ==> settles(
            create_todo_step(todos[i].id, todos[i].title, todos[i].created_at),
            #[trigger] tables[i],
            clocks[i],
            Ok(ReplyView::Stored(todos[i])),
            tables[i + 1],
        )
}

/// A todo that was created is still stored, as it was created, after any
/// number of further creations.
pub proof fn created_todos_stay(
    todos: Seq<TodoView>,
    tables: Seq<Table>,
    clocks: Seq<i64>,
    i: int,
    k: int,
)
    requires
        created_in_turn(todos, tables, clocks),
        0 <= i < k <= todos.len(),
    ensures
        tables[k].contains_key(todos[i].id),
        row_at(tables[k], todos[i].id) == todos[i],
    decreases k,
{
    reveal_with_fuel(settles, 3);
    let made = k - 1;
    assert(settles(
        create_todo_step(todos[made].id, todos[made].title, todos[made].created_at),
        tables[made],
        clocks[made],
        Ok(ReplyView::Stored(todos[made])),
        tables[made + 1],
    ));
    if i < made {
        created_todos_stay(todos, tables, clocks, i, made);
    }
}

/// After any number of creations, a listing holds every created todo exactly
/// once, as it was created, in whatever order the store lists them. The
/// listing changes nothing.
pub proof fn listing_holds_each_created_todo_once(
    todos: Seq<TodoView>,
    tables: Seq<Table>,
    clocks: Seq<i64>,
    clock: i64,
    listed: OutcomeView,
    after: Table,
)
    requires
        created_in_turn(todos, tables, clocks),
        settles(get_all_todos_step(), tables[todos.len() as int], clock, listed, after),
    ensures
        listed matches Ok(ReplyView::Todos(rows)) && forall|i: int|
            0 <= i < todos.len() ==> occurs_once(rows, #[trigger] todos[i]),
        after == tables[todos.len() as int],
{
    reveal_with_fuel(settles, 3);
    let last = tables[todos.len() as int];
    let rows = (listed->Ok_0)->Todos_0;
    assert(is_listing(last, rows));
    assert forall|i: int| 0 <= i < todos.len() implies occurs_once(rows, #[trigger] todos[i]) by {
        created_todos_stay(todos, tables, clocks, i, todos.len() as int);
        let id = todos[i].id;
        assert(last.contains_key(id));
        let at = choose|at: int| 0 <= at < rows.len() && #[trigger] rows[at].id == id;
        assert(row_at(last, rows[at].id) == rows[at]);
        assert(rows[at] == todos[i]);
        assert forall|other: int|
            0 <= other < rows.len() && (#[trigger] rows[other]).id == id implies other == at by {
            if other < at {
                assert(rows[other].id != rows[at].id);
            } else if at < other {
                assert(rows[at].id != rows[other].id);
            }
        }
    }
}

} // verus!
