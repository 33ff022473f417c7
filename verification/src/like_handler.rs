use vstd::prelude::*;

use crate::errors::{db_error_model, DbFailure, Error, ErrorKind};
use crate::models::Like;

verus! {

/// What the likes table answered to the last request while a like is counted.
#[derive(Debug)]
pub enum CounterEvent {
    /// The answer to the request that adds one to the row's value and reads
    /// the row back.
    Incremented(Result<Like, DbFailure>),
    /// The answer to the request that inserts a row with the value one and
    /// reads it back.
    Inserted(Result<Like, DbFailure>),
}

/// What is asked of the likes table next while a like is counted, or the
/// outcome once it is counted.
#[derive(Debug)]
pub enum CounterAction {
    /// Add one to the value of the row with the id, and read it back.
    IncrementValue,
    /// Insert a row with the value one, under the id the table gives it, and
    /// read it back.
    InsertRow,
    /// Answer the request with this outcome.
    Finish(Result<Like, Error>),
}

/// `out` is the outcome of a request that the table answered with `r`: the
/// row, or the failure as `Error::from_db` reports it.
pub open spec fn row_outcome(r: Result<Like, DbFailure>, out: Result<Like, Error>) -> bool {
    match r {
        Ok(l) => out == Ok::<Like, Error>(l),
        Err(f) => out matches Err(e) && e@ == db_error_model(f),
    }
}

/// `next` is what follows the answer `event` while a like is counted.
pub open spec fn counter_step_spec(event: CounterEvent, next: CounterAction) -> bool {
    match event {
        CounterEvent::Incremented(Ok(l)) => next == CounterAction::Finish(Ok(l)),
        CounterEvent::Incremented(Err(_)) => next is InsertRow,
        CounterEvent::Inserted(r) => next matches CounterAction::Finish(out) && row_outcome(r, out),
    }
}

/// The first request made to count a like.
pub open spec fn counter_start_spec() -> CounterAction {
    CounterAction::IncrementValue
}

/// The first request made to count a like: add one to the row's value.
pub fn counter_start() -> (a: CounterAction)
    ensures
        a == counter_start_spec(),
{
    CounterAction::IncrementValue
}

/// What follows the table's answer `event` while a like is counted.
///
/// A row whose value went up is the outcome. When the increment failed (no
/// such row, or another failure) a row with the value one is inserted; its
/// insert's answer is the outcome, a failure as `Error::from_db` reports it.
pub fn counter_step(event: CounterEvent) -> (next: CounterAction)
    ensures
        counter_step_spec(event, next),
{
    match event {
        CounterEvent::Incremented(Ok(l)) => CounterAction::Finish(Ok(l)),
        CounterEvent::Incremented(Err(_)) => CounterAction::InsertRow,
        CounterEvent::Inserted(r) => CounterAction::Finish(row_lookup(r)),
    }
}

/// The outcome of reading the row with an id: the row, or the failure as
/// `Error::from_db` reports it (a missing row is `NotFound`).
pub fn row_lookup(r: Result<Like, DbFailure>) -> (out: Result<Like, Error>)
    ensures
        row_outcome(r, out),
{
    match r {
        Ok(l) => Ok(l),
        Err(f) => Err(Error::from_db(f)),
    }
}

/// How a likes table keyed by row id answers `action` for the id `id`:
/// `table` maps each stored id to its value before the request, `after`
/// after it, and `event` is the answer.
///
/// Adding one to a stored row answers the row with its new value (when it
/// fits in an `i32`); adding one to a missing row finds no row. An insert
/// stores a row with the value one under an id the table did not hold and
/// answers it.
pub open spec fn counter_table_answers(
    table: Map<i32, int>,
    id: i32,
    action: CounterAction,
    after: Map<i32, int>,
    event: CounterEvent,
) -> bool {
    match action {
        CounterAction::IncrementValue => if !table.contains_key(id) {
            &&& after == table
            &&& event matches CounterEvent::Incremented(Err(DbFailure::NotFound))
        } else if table[id] + 1 <= i32::MAX {
            &&& after == table.insert(id, table[id] + 1)
            &&& event == CounterEvent::Incremented(Ok(Like { id, value: (table[id] + 1) as i32 }))
        } else {
            &&& after == table
            &&& event matches CounterEvent::Incremented(Err(DbFailure::Other(_)))
        },
        CounterAction::InsertRow => {
            &&& event matches CounterEvent::Inserted(Ok(l))
            &&& !table.contains_key(l.id)
            &&& l.value == 1
            &&& after == table.insert(l.id, 1)
        },
        CounterAction::Finish(_) => false,
    }
}

/// Counting a like against a likes table keyed by row id adds one to the
/// value of a stored row and answers that row. For an id the table does not
/// hold it inserts a new row with the value one, under an id the table
/// picks (not necessarily the one asked for), and answers that row.
///
/// It does not hold of a row whose value already stands at `i32::MAX`: the
/// increment then fails and a fresh row is inserted instead.
pub proof fn lemma_count_like(
    table: Map<i32, int>,
    id: i32,
    e1: CounterEvent,
    t1: Map<i32, int>,
    a1: CounterAction,
    e2: CounterEvent,
    t2: Map<i32, int>,
    a2: CounterAction,
)
    requires
        table.contains_key(id) ==> table[id] < i32::MAX,
        counter_table_answers(table, id, counter_start_spec(), t1, e1),
        counter_step_spec(e1, a1),
        !(a1 is Finish) ==> counter_table_answers(t1, id, a1, t2, e2) && counter_step_spec(e2, a2),
    ensures
        table.contains_key(id) ==> {
            &&& a1 == CounterAction::Finish(Ok(Like { id, value: (table[id] + 1) as i32 }))
            &&& t1 == table.insert(id, table[id] + 1)
        },
        !table.contains_key(id) ==> {
            &&& a2 matches CounterAction::Finish(Ok(l))
            &&& l.value == 1
            &&& !table.contains_key(l.id)
            &&& t2 == table.insert(l.id, 1)
        },
{
}

/// Counting a like starts by asking to add one to the row's value.
pub proof fn lemma_counter_starts_with_increment()
    ensures
        counter_start_spec() is IncrementValue,
{
}

/// A row that was read is the outcome; a missing row is `NotFound` with an
/// empty message, a unique-key violation `AlreadyExists` with an empty
/// message, and any other failure `Internal` carrying its text (never
/// `NotFound`).
pub proof fn lemma_row_outcome_cases(r: Result<Like, DbFailure>, out: Result<Like, Error>)
    requires
        row_outcome(r, out),
    ensures
        r matches Ok(l) ==> out == Ok::<Like, Error>(l),
        r matches Err(DbFailure::NotFound) ==> (out matches Err(e) && e.spec_kind()
            == ErrorKind::NotFound && e.spec_msg() == Seq::<char>::empty()),
        r matches Err(DbFailure::UniqueViolation) ==> (out matches Err(e) && e.spec_kind()
            == ErrorKind::AlreadyExists && e.spec_msg() == Seq::<char>::empty()),
        r matches Err(DbFailure::Other(t)) ==> (out matches Err(e) && e.spec_kind()
            == ErrorKind::Internal && e.spec_msg() == t@),
{
}

/// Each answer of the likes table leads on as follows: a row whose value went
/// up is the outcome; a failed increment, whatever its failure, leads to
/// inserting a fresh row; an insert's answer is the outcome.
pub proof fn lemma_counter_step_cases(event: CounterEvent, next: CounterAction)
    requires
        counter_step_spec(event, next),
    ensures
        event matches CounterEvent::Incremented(Ok(l)) ==> next == CounterAction::Finish(
            Ok::<Like, Error>(l),
        ),
        event matches CounterEvent::Incremented(Err(_)) ==> next is InsertRow,
        event matches CounterEvent::Inserted(r) ==> (next matches CounterAction::Finish(out)
            && row_outcome(r, out)),
{
}

/// How a likes table may answer when a request to add one can fail: as
/// `counter_table_answers` says, or with a failed increment that leaves the
/// table as it was (a deadlock, a lock timeout).
pub open spec fn counter_table_may_answer(
    table: Map<i32, int>,
    id: i32,
    action: CounterAction,
    after: Map<i32, int>,
    event: CounterEvent,
) -> bool {
    ||| counter_table_answers(table, id, action, after, event)
    ||| (action is IncrementValue && after == table && event matches CounterEvent::Incremented(
        Err(_),
    ))
}

/// When the increment fails, whatever the failure (a missing row, a value
/// already at `i32::MAX`, a deadlock), counting the like inserts a fresh row
/// with the value one, under an id the table did not hold, and answers it.
pub proof fn lemma_failed_increment_inserts_fresh_row(
    table: Map<i32, int>,
    id: i32,
    e1: CounterEvent,
    t1: Map<i32, int>,
    a1: CounterAction,
    e2: CounterEvent,
    t2: Map<i32, int>,
    a2: CounterAction,
)
    requires
        counter_table_may_answer(table, id, counter_start_spec(), t1, e1),
        e1 matches CounterEvent::Incremented(Err(_)),
        counter_step_spec(e1, a1),
        !(a1 is Finish) ==> counter_table_may_answer(t1, id, a1, t2, e2) && counter_step_spec(
            e2,
            a2,
        ),
    ensures
        a1 is InsertRow,
        t1 == table,
        a2 matches CounterAction::Finish(Ok(l)),
        a2 matches CounterAction::Finish(Ok(l)) ==> {
            &&& l.value == 1
            &&& !table.contains_key(l.id)
            &&& t2 == table.insert(l.id, 1)
        },
{
}

} // verus!
