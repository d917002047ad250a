//! What a subscriber insert asks of the database, and how its result is read.

use vstd::prelude::*;

verus! {

/// The row a sign-up writes: a fresh identifier, the subscriber's email and
/// name, and the time of the sign-up in microseconds since the Unix epoch.
pub struct InsertCommand {
    pub id: u128,
    pub email: String,
    pub name: String,
    pub subscribed_at: i64,
}

/// The classes of a failed insert.
#[derive(Clone, Copy, Debug, PartialEq, Eq, Structural)]
pub enum FailureKind {
    /// The server refused the row under an integrity constraint (SQLSTATE class 23).
    ConstraintViolation,
    /// The connection broke or could not be made.
    Connection,
    /// The pool or the server gave up waiting.
    Timeout,
    /// The server refused the statement for any other reason.
    Query,
}

/// The result of one insert attempt: there is no partial success.
#[derive(Clone, Copy, Debug, PartialEq, Eq, Structural)]
pub enum InsertOutcome {
    Success,
    Failure(FailureKind),
}

/// A database error as the connection pool reports it, in plain values.
/// `detail` is the error's full description, kept for the request's events
/// and never shown to the client.
pub enum DatabaseFault {
    /// The server answered with an error carrying this SQLSTATE code.
    Rejected { sqlstate: String, detail: String },
    /// The server could not be reached, or the connection broke.
    Unreachable { detail: String },
    /// No connection became free in time, or the statement was cancelled.
    TimedOut { detail: String },
}

pub open spec fn fault_detail(f: DatabaseFault) -> Seq<char> {
    match f {
        DatabaseFault::Rejected { detail, .. } => detail@,
        DatabaseFault::Unreachable { detail } => detail@,
        DatabaseFault::TimedOut { detail } => detail@,
    }
}

/// The cause an insert's result leaves for the request's events: none on
/// success, the error's description on failure.
pub open spec fn insert_cause(result: Result<(), DatabaseFault>) -> Option<Seq<char>> {
    match result {
        Ok(()) => None,
        Err(f) => Some(fault_detail(f)),
    }
}

/// The description of a database error.
pub fn detail_of(f: &DatabaseFault) -> (r: &String)
    ensures
        r@ == fault_detail(*f),
{
    match f {
        DatabaseFault::Rejected { detail, .. } => detail,
        DatabaseFault::Unreachable { detail } => detail,
        DatabaseFault::TimedOut { detail } => detail,
    }
}

/// Whether a SQLSTATE code belongs to the class written `a b`.
pub open spec fn in_class(code: Seq<char>, a: char, b: char) -> bool {
    code.len() >= 2 && code[0] == a && code[1] == b
}

pub open spec fn kind_of(f: DatabaseFault) -> FailureKind {
    match f {
        DatabaseFault::Rejected { sqlstate, .. } => {
            if in_class(sqlstate@, '2', '3') {
                FailureKind::ConstraintViolation
            } else if in_class(sqlstate@, '0', '8') {
                FailureKind::Connection
            } else if in_class(sqlstate@, '5', '7') {
                FailureKind::Timeout
            } else {
                FailureKind::Query
            }
        },
        DatabaseFault::Unreachable { .. } => FailureKind::Connection,
        DatabaseFault::TimedOut { .. } => FailureKind::Timeout,
    }
}

fn sqlstate_in_class(code: &String, a: char, b: char) -> (r: bool)
    ensures
        r == in_class(code@, a, b),
{
    let s = code.as_str();
    if s.unicode_len() < 2 {
        false
    } else {
        s.get_char(0) == a && s.get_char(1) == b
    }
}

/// The class of a database error.
pub fn classify_fault(f: &DatabaseFault) -> (r: FailureKind)
    ensures
        r == kind_of(*f),
{
    match f {
        DatabaseFault::Rejected { sqlstate, .. } => {
            if sqlstate_in_class(sqlstate, '2', '3') {
                FailureKind::ConstraintViolation
            } else if sqlstate_in_class(sqlstate, '0', '8') {
                FailureKind::Connection
            } else if sqlstate_in_class(sqlstate, '5', '7') {
                FailureKind::Timeout
            } else {
                FailureKind::Query
            }
        },
        DatabaseFault::Unreachable { .. } => FailureKind::Connection,
        DatabaseFault::TimedOut { .. } => FailureKind::Timeout,
    }
}

pub open spec fn insert_outcome(result: Result<(), DatabaseFault>) -> InsertOutcome {
    match result {
        Ok(()) => InsertOutcome::Success,
        Err(f) => InsertOutcome::Failure(kind_of(f)),
    }
}

/// The outcome of an insert, from what the pool returned.
pub fn outcome_of(result: &Result<(), DatabaseFault>) -> (r: InsertOutcome)
    ensures
        r == insert_outcome(*result),
{
    match result {
        Ok(()) => InsertOutcome::Success,
        Err(f) => InsertOutcome::Failure(classify_fault(f)),
    }
}

pub open spec fn status_of(outcome: InsertOutcome) -> u16 {
    match outcome {
        InsertOutcome::Success => 200,
        InsertOutcome::Failure(_) => 500,
    }
}

/// The HTTP status a sign-up answers with: 200 once the row is written, 500
/// for any failure, whose detail never reaches the client.
pub fn status_for(outcome: InsertOutcome) -> (r: u16)
    ensures
        r == status_of(outcome),
{
    match outcome {
        InsertOutcome::Success => 200,
        InsertOutcome::Failure(_) => 500,
    }
}

} // verus!
