//! The course of a write operation, as a state machine.
//!
//! A write is a short exchange with the store: statements go out, answers
//! come back. The decisions live here; the caller owns the connection. It
//! starts in [`StoreState::Start`] with [`StoreEvent::Begin`], performs each
//! [`StoreAction`] it is handed, and reports what the store answered as the
//! next event, until the action is one that ends the operation.

use crate::error::ServiceError;
use crate::statement::{Query, SqlValue, Statement};
use vstd::prelude::*;

verus! {

/// Where a write operation stands.
#[derive(Clone, Copy, Debug, PartialEq, Eq, Structural)]
pub enum StoreState {
    /// Nothing was sent yet.
    Start,
    /// The highest number in use was asked for.
    AwaitNumber,
    /// The writing statement was sent.
    AwaitWrite,
    /// The identity of the inserted row was asked for.
    AwaitId,
    /// The operation has ended.
    Finished,
}

/// What the caller reports to the machine.
#[derive(Clone, Debug, PartialEq, Eq)]
pub enum StoreEvent {
    /// The operation starts.
    Begin,
    /// The store answered a number query: the number of the first row, if
    /// there was a row.
    Number(Option<i64>),
    /// The store executed a writing statement, which touched this many rows.
    Written(u64),
    /// The store answered an identity query.
    Id(i64),
    /// The store failed, with these words.
    Failed(String),
}

/// What the caller is to do next.
#[derive(Clone, Debug, PartialEq, Eq)]
pub enum StoreAction {
    /// Run the statement, read a number from its first row if it has one, and
    /// report [`StoreEvent::Number`].
    FetchNumber(Statement),
    /// Execute the statement and report [`StoreEvent::Written`].
    Write(Statement),
    /// Run the statement, read an identity from its one row, and report
    /// [`StoreEvent::Id`].
    FetchId(Statement),
    /// End the operation with this identity.
    Return(i64),
    /// End the operation; it has no result.
    Complete,
    /// End the operation with this failure.
    Fail(ServiceError),
}

/// One move of the machine: the state it is in now, and what to do.
#[derive(Clone, Debug, PartialEq, Eq)]
pub struct Step {
    pub state: StoreState,
    pub action: StoreAction,
}

/// The detail text of the failure on an answer that does not fit the state.
pub open spec fn unexpected_answer() -> Seq<char> {
    "unexpected answer from the store"@
}

impl Step {
    /// The operation ends with a failure of this label and detail.
    pub open spec fn fails_with(self, label: Seq<char>, detail: Seq<char>) -> bool {
        self.state == StoreState::Finished && match self.action {
            StoreAction::Fail(error) => error.label() == label && error.detail() == detail,
            _ => false,
        }
    }

    /// The operation ends with this identity.
    pub open spec fn yields(self, id: i64) -> bool {
        self.state == StoreState::Finished && self.action == StoreAction::Return(id)
    }

    /// The operation ends without a result.
    pub open spec fn completes(self) -> bool {
        self.state == StoreState::Finished && self.action == StoreAction::Complete
    }

    /// The highest number in use is asked for with this statement.
    pub open spec fn fetches_number(self, query: Query, params: Seq<SqlValue>) -> bool {
        self.state == StoreState::AwaitNumber && match self.action {
            StoreAction::FetchNumber(statement) => statement.binds(query, params),
            _ => false,
        }
    }

    /// This statement is sent for execution.
    pub open spec fn writes(self, query: Query, params: Seq<SqlValue>) -> bool {
        self.state == StoreState::AwaitWrite && match self.action {
            StoreAction::Write(statement) => statement.binds(query, params),
            _ => false,
        }
    }

    /// The identity of the row inserted last is asked for.
    pub open spec fn fetches_id(self) -> bool {
        self.state == StoreState::AwaitId && match self.action {
            StoreAction::FetchId(statement) => statement.binds(Query::LastInsertId, Seq::empty()),
            _ => false,
        }
    }
}

/// How an operation goes on once its writing statement is out. A failure of
/// the store ends it, in whatever state. After the write, an update returns
/// the identity it was keyed by, however many rows the store touched; an
/// insert asks the store which identity it assigned, and returns that.
pub open spec fn concludes(id: Option<i64>, state: StoreState, event: StoreEvent, step: Step) -> bool {
    match (state, event) {
        (_, StoreEvent::Failed(detail)) => step.fails_with("Sqlx error"@, detail@),
        (StoreState::AwaitWrite, StoreEvent::Written(_)) => match id {
            Some(id) => step.yields(id),
            None => step.fetches_id(),
        },
        (StoreState::AwaitId, StoreEvent::Id(assigned)) => step.yields(assigned),
        _ => step.fails_with("Protocol error"@, unexpected_answer()),
    }
}

/// An insert (`id` absent) or update (`id` present) by one statement: it is
/// sent first, and the operation then goes on as [`concludes`] says.
pub open spec fn upserts(
    id: Option<i64>,
    query: Query,
    params: Seq<SqlValue>,
    state: StoreState,
    event: StoreEvent,
    step: Step,
) -> bool {
    match (state, event) {
        (StoreState::Start, StoreEvent::Begin) => step.writes(query, params),
        _ => concludes(id, state, event, step),
    }
}

/// An operation of one writing statement and no result. It succeeds
/// whenever the store executed the statement, whether or not a row matched.
pub open spec fn writes_once(
    query: Query,
    params: Seq<SqlValue>,
    state: StoreState,
    event: StoreEvent,
    step: Step,
) -> bool {
    match (state, event) {
        (_, StoreEvent::Failed(detail)) => step.fails_with("Sqlx error"@, detail@),
        (StoreState::Start, StoreEvent::Begin) => step.writes(query, params),
        (StoreState::AwaitWrite, StoreEvent::Written(_)) => step.completes(),
        _ => step.fails_with("Protocol error"@, unexpected_answer()),
    }
}

/// The failure on an answer that does not fit the state.
pub fn refuse() -> (step: Step)
    ensures
        step.fails_with("Protocol error"@, unexpected_answer()),
{
    Step {
        state: StoreState::Finished,
        action: StoreAction::Fail(ServiceError::protocol("unexpected answer from the store")),
    }
}

/// The next move of an operation whose writing statement is out.
pub fn conclude(id: Option<i64>, state: StoreState, event: StoreEvent) -> (step: Step)
    ensures
        concludes(id, state, event, step),
{
    match event {
        StoreEvent::Failed(detail) => Step {
            state: StoreState::Finished,
            action: StoreAction::Fail(ServiceError::storage(detail)),
        },
        StoreEvent::Written(_) => match (state, id) {
            (StoreState::AwaitWrite, Some(id)) => Step {
                state: StoreState::Finished,
                action: StoreAction::Return(id),
            },
            (StoreState::AwaitWrite, None) => Step {
                state: StoreState::AwaitId,
                action: StoreAction::FetchId(Statement::last_insert_id()),
            },
            _ => refuse(),
        },
        StoreEvent::Id(assigned) => match state {
            StoreState::AwaitId => Step {
                state: StoreState::Finished,
                action: StoreAction::Return(assigned),
            },
            _ => refuse(),
        },
        _ => refuse(),
    }
}

/// The next move of an insert or update by the statement `write`.
pub fn advance_upsert(id: Option<i64>, write: Statement, state: StoreState, event: StoreEvent) -> (step: Step)
    ensures
        upserts(id, write.query, write.params@, state, event, step),
{
    match (state, &event) {
        (StoreState::Start, StoreEvent::Begin) => Step {
            state: StoreState::AwaitWrite,
            action: StoreAction::Write(write),
        },
        _ => conclude(id, state, event),
    }
}

/// The next move of an operation that executes `write` and has no result.
pub fn advance_write(write: Statement, state: StoreState, event: StoreEvent) -> (step: Step)
    ensures
        writes_once(write.query, write.params@, state, event, step),
{
    match event {
        StoreEvent::Failed(detail) => Step {
            state: StoreState::Finished,
            action: StoreAction::Fail(ServiceError::storage(detail)),
        },
        StoreEvent::Begin => match state {
            StoreState::Start => Step { state: StoreState::AwaitWrite, action: StoreAction::Write(write) },
            _ => refuse(),
        },
        StoreEvent::Written(_) => match state {
            StoreState::AwaitWrite => Step { state: StoreState::Finished, action: StoreAction::Complete },
            _ => refuse(),
        },
        _ => refuse(),
    }
}

/// Storing under an identity returns that identity: once the store has
/// executed the update, the operation ends with the identity that the edit
/// named, however many rows the store touched.
pub proof fn lemma_update_returns_identity(
    id: i64,
    query: Query,
    params: Seq<SqlValue>,
    touched: u64,
    step: Step,
)
    requires
        upserts(Some(id), query, params, StoreState::AwaitWrite, StoreEvent::Written(touched), step),
    ensures
        step.yields(id),
{
}

/// Storing without an identity returns the identity that the store assigned:
/// after the insert the store is asked for it, and its answer is the result.
pub proof fn lemma_insert_returns_assigned(
    query: Query,
    params: Seq<SqlValue>,
    touched: u64,
    assigned: i64,
    asked: Step,
    answered: Step,
)
    requires
        upserts(None, query, params, StoreState::AwaitWrite, StoreEvent::Written(touched), asked),
        upserts(None, query, params, asked.state, StoreEvent::Id(assigned), answered),
    ensures
        asked.fetches_id(),
        answered.yields(assigned),
{
}

/// A single write succeeds on no match: once the store has executed the
/// statement, the operation ends without a failure, also where the statement
/// touched no row.
pub proof fn lemma_write_needs_no_match(query: Query, params: Seq<SqlValue>, touched: u64, step: Step)
    requires
        writes_once(query, params, StoreState::AwaitWrite, StoreEvent::Written(touched), step),
    ensures
        step.completes(),
{
}

} // verus!
