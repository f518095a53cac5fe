use postgres_actor::actor::PostgresActor;
use postgres_actor::actor::PostgresTask;
use postgres_actor::actor::StartupDirective;
use postgres_actor::actor::TaskDispatch;
use postgres_actor::outcome::PgActorError;
use postgres_actor::outcome::PostgresResultType;
use tokio_postgres::error::Error;
use tokio_postgres::NoTls;

fn some_driver_error() -> Error {
    match PostgresActor::<NoTls>::start("host=localhost port=nope", NoTls) {
        Err(e) => e,
        Ok(_) => panic!("malformed string must be rejected"),
    }
}

#[test]
fn query_rows_are_classified_as_success() {
    let rows = Vec::new();
    match PostgresResultType::query(Ok(rows)) {
        Ok(PostgresResultType::Query(rs)) => assert!(rs.is_empty()),
        Err(_) => panic!("rows must classify as a query result"),
    }
}

#[test]
fn driver_failure_is_classified_as_pg_error() {
    let outcome = PostgresResultType::query(Err(some_driver_error()));
    assert!(matches!(outcome, Err(PgActorError::PGError(_))));
}

#[test]
fn absent_handle_is_classified_as_connection_none() {
    let outcome = PostgresResultType::handle_absent();
    assert!(matches!(outcome, Err(PgActorError::ConnectionNone)));
}

#[test]
fn end_to_end_lifecycle() {
    // Construct against a well-formed configuration; the handle build
    // resolves and the actor becomes ready.
    let mut actor =
        PostgresActor::start("postgresql://user@localhost:5432/db", NoTls).unwrap();
    assert!(!actor.is_ready());
    assert!(matches!(actor.build_complete(Ok(())), StartupDirective::Resume));

    // A submitted query dispatches and its rows classify as a success.
    let first_generation = match actor.handle(PostgresTask::new("SELECT NOW()")) {
        TaskDispatch::Invoke { handle, query } => {
            assert_eq!(query, "SELECT NOW()");
            let outcome = PostgresResultType::query(Ok(Vec::new()));
            assert!(matches!(outcome, Ok(PostgresResultType::Query(_))));
            handle.generation()
        }
        TaskDispatch::Absent => panic!("ready actor must dispatch"),
    };

    // The resource goes away: the task still dispatches (the handle is
    // live), and the driver's failure comes back classified, never retried.
    match actor.handle(PostgresTask::new("SELECT NOW()")) {
        TaskDispatch::Invoke { .. } => {
            let outcome = PostgresResultType::query(Err(some_driver_error()));
            assert!(matches!(outcome, Err(PgActorError::PGError(_))));
        }
        TaskDispatch::Absent => panic!("the handle is still live at this point"),
    }

    // The failure brings the actor down; the supervisor restarts it and the
    // handle is rebuilt from the retained configuration.
    actor.restarting();
    assert!(!actor.is_ready());
    assert!(matches!(actor.build_complete(Ok(())), StartupDirective::Resume));

    match actor.handle(PostgresTask::new("SELECT NOW()")) {
        TaskDispatch::Invoke { handle, .. } => {
            assert_ne!(handle.generation(), first_generation);
            let outcome = PostgresResultType::query(Ok(Vec::new()));
            assert!(matches!(outcome, Ok(PostgresResultType::Query(_))));
        }
        TaskDispatch::Absent => panic!("rebuilt actor must dispatch"),
    }
}
