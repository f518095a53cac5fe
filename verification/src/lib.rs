//! A supervised actor around a pooled Postgres connection handle.
//!
//! The actor owns at most one resource handle (a connection pool) at a time.
//! The handle is built asynchronously after the actor starts; until the build
//! resolves, the actor holds no handle. Work is submitted as one-shot tasks:
//! when a handle is live, a task is dispatched with a clone of that handle,
//! otherwise the task is discarded un-invoked and the caller is told that the
//! handle is absent. On an abnormal termination a supervisor restarts the
//! actor: the restart hook discards any held handle, while the parsed
//! configuration is retained, so the rebuilt handle always comes from the
//! original configuration and carries a fresh identity tag.
//!
//! The asynchronous runtime (mailbox, supervision, the pool build itself and
//! the execution of task futures) lives outside this crate; this crate is the
//! state machine those loops drive, together with the connection-string
//! parsing and the closed outcome envelope.

pub mod actor;
pub mod driver;
pub mod outcome;
