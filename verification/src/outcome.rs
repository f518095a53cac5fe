//! The closed outcome envelope: every dispatched task resolves to a typed
//! result, a classified driver error, or the handle-absent signal — no raw
//! driver outcome escapes the actor's boundary unclassified.

use vstd::prelude::*;

verus! {

/// The closed error taxonomy for dispatched work.
#[derive(Debug)]
pub enum PgActorError {
    /// The driver rejected or failed the operation; the underlying error is
    /// surfaced unchanged and never retried here.
    PGError(tokio_postgres::error::Error),
    /// No live handle: the infrastructure is not yet ready or is being
    /// rebuilt. Distinct from a driver failure; callers resubmit later.
    ConnectionNone,
}

/// The typed result of a dispatched unit of work.
pub enum PostgresResultType {
    /// The rows a query produced.
    Query(Vec<tokio_postgres::row::Row>),
}

impl PostgresResultType {
    /// Classify a raw driver result at the dispatch boundary: rows are
    /// wrapped as a query result, a driver error is wrapped unchanged.
    pub fn query(res: Result<Vec<tokio_postgres::row::Row>, tokio_postgres::error::Error>) -> (r:
        Result<Self, PgActorError>)
        ensures
            res matches Ok(rows) ==> r == Ok::<Self, PgActorError>(PostgresResultType::Query(rows)),
            res matches Err(e) ==> r == Err::<Self, PgActorError>(PgActorError::PGError(e)),
    {
        match res {
            Ok(rows) => Ok(PostgresResultType::Query(rows)),
            Err(err) => Err(PgActorError::PGError(err)),
        }
    }

    /// The envelope owed to a caller whose task was dispatched while no
    /// handle was live.
    pub fn handle_absent() -> (r: Result<Self, PgActorError>)
        ensures
            r == Err::<Self, PgActorError>(PgActorError::ConnectionNone),
    {
        Err(PgActorError::ConnectionNone)
    }
}

} // verus!
