//! The layers put together: the use cases in front of the adapter, and the
//! adapter in front of its database.
use crate::domain::repository::{OutcomeView, Table};
use crate::infrastructure::conformance::{adapter_answers_as_a_store, runs_to};
use crate::infrastructure::todo_repository::first_step;
use crate::usecase::guarantees::{requests_left, settles};
use crate::usecase::todo_usecase::{step_after, ServiceStepView};
use vstd::prelude::*;

verus! {

/// From `step`, with every request of the use case carried out by the
/// adapter in front of a database that holds `before`, the use case can end
/// with `outcome` and leave the database holding `after`.
pub open spec fn settles_through_adapter(
    step: ServiceStepView,
    before: Table,
    clock: i64,
    outcome: OutcomeView,
    after: Table,
) -> bool
    decreases requests_left(step),
{
    match step {
        ServiceStepView::Finished(ended) => ended == outcome && after == before,
        ServiceStepView::Call(request, awaiting) => exists|reply: OutcomeView, between: Table|
            {
                &&& #[trigger] runs_to(first_step(request), before, clock, reply, between)
                &&& settles_through_adapter(
                    step_after(awaiting, reply),
                    between,
                    clock,
                    outcome,
                    after,
                )
            },
    }
}

/// Whatever a use case ends with when the adapter carries its requests out
/// is an ending that the use case has in front of a todo store. So all that
/// is guaranteed of the use cases in front of a todo store holds of them in
/// front of the adapter and its database.
pub proof fn adapter_can_stand_behind_use_cases(
    step: ServiceStepView,
    before: Table,
    clock: i64,
    outcome: OutcomeView,
    after: Table,
)
    requires
        settles_through_adapter(step, before, clock, outcome, after),
    ensures
        settles(step, before, clock, outcome, after),
    decreases requests_left(step),
{
    match step {
        ServiceStepView::Finished(_) => {},
        ServiceStepView::Call(request, awaiting) => {
            let (reply, between) = choose|reply: OutcomeView, between: Table|
                {
                    &&& #[trigger] runs_to(first_step(request), before, clock, reply, between)
                    &&& settles_through_adapter(
                        step_after(awaiting, reply),
                        between,
                        clock,
                        outcome,
                        after,
                    )
                };
            adapter_answers_as_a_store(request, before, clock, reply, between);
            adapter_can_stand_behind_use_cases(
                step_after(awaiting, reply),
                between,
                clock,
                outcome,
                after,
            );
        },
    }
}

} // verus!
