//! The adapter in front of a database answers as a todo store must.
use crate::domain::repository::{reply_fits, table_after, OutcomeView, RequestView, Table};
use crate::domain::todo::TodoError;
use crate::infrastructure::statement::{a_fetch_exists, fetch_fits, rows_after, FetchedView};
use crate::infrastructure::todo_repository::{
    first_step, next_step, PendingView, RepositoryStepView,
};
use vstd::prelude::*;

verus! {

/// The most statements that can still go out from `step` on.
pub open spec fn statements_left(step: RepositoryStepView) -> nat {
    match step {
        RepositoryStepView::Finished(_) => 0,
        RepositoryStepView::Execute(_, PendingView::UpdateWrite(_)) => 2,
        RepositoryStepView::Execute(_, _) => 1,
    }
}

/// From `step`, with a database that holds `before` and answers every
/// statement as [`fetch_fits`] allows, the adapter can end with `outcome` and
/// leave the database holding `after`. The clock of the database reads
/// `clock` throughout, and nobody else writes to the database meanwhile.
pub open spec fn runs_to(
    step: RepositoryStepView,
    before: Table,
    clock: i64,
    outcome: OutcomeView,
    after: Table,
) -> bool
    decreases statements_left(step),
{
    match step {
        RepositoryStepView::Finished(ended) => ended == outcome && after == before,
        RepositoryStepView::Execute(statement, pending) => exists|fetched: FetchedView|
            {
                &&& #[trigger] fetch_fits(before, statement, fetched)
                &&& runs_to(
                    next_step(pending, fetched),
                    rows_after(before, statement, clock),
                    clock,
                    outcome,
                    after,
                )
            },
    }
}

/// In front of a database of finitely many todos every step leads to an end:
/// there is an outcome that the adapter runs to.
pub proof fn every_request_ends(step: RepositoryStepView, before: Table, clock: i64) -> (end: (
    OutcomeView,
    Table,
))
    requires
        before.dom().finite(),
    ensures
        runs_to(step, before, clock, end.0, end.1),
        end.1.dom().finite(),
    decreases statements_left(step),
{
    match step {
        RepositoryStepView::Finished(ended) => (ended, before),
        RepositoryStepView::Execute(statement, pending) => {
            let fetched = a_fetch_exists(before, statement, clock);
            let end = every_request_ends(
                next_step(pending, fetched),
                rows_after(before, statement, clock),
                clock,
            );
            assert(fetch_fits(before, statement, fetched));
            end
        },
    }
}

/// A failure of the database ends the request at once with a storage error:
/// nothing is sent again, and nothing more is sent.
pub proof fn failure_ends_the_request(pending: PendingView)
    ensures
        next_step(pending, FetchedView::Failed) == RepositoryStepView::Finished(
            Err(TodoError::Storage),
        ),
{
}

/// Whatever the adapter ends a request with, in front of a database that
/// answers as [`fetch_fits`] allows, is an answer that a todo store may give
/// to that request, and the database then holds what the store must hold.
pub proof fn adapter_answers_as_a_store(
    request: RequestView,
    before: Table,
    clock: i64,
    outcome: OutcomeView,
    after: Table,
)
    requires
        runs_to(first_step(request), before, clock, outcome, after),
    ensures
        reply_fits(before, request, clock, outcome),
        after == table_after(before, request, clock),
{
    reveal_with_fuel(runs_to, 3);
}

} // verus!
