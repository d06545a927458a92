//! A client-side harness for driving and observing storage-page behaviour of
//! a relational database: a schema controller that owns a small fixture
//! table, a page inspector that classifies per-tuple line-pointer diagnostics,
//! and experiment state machines that decide which query to issue next and
//! whether the observed page state matches the expected one.
pub mod experiment;
pub mod inspect;
pub mod schema;
