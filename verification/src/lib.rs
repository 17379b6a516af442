//! Vocabulary-learning backend: the text-ingestion pipeline, free of I/O.
//!
//! The crate holds the decisions of the service and leaves every network and
//! database round trip to its caller. A caller performs the action the
//! pipeline asks for and hands back what happened; the pipeline answers with
//! the next action, until it returns the outcome of the request.

pub mod error;
pub mod laws;
pub mod model;
pub mod pipeline;
pub mod routes;
pub mod store;
pub mod table;
pub mod tokenize;
