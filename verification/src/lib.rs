//! A one-shot bridge between an already-materialized stream of columnar
//! batches and a pull-based query execution engine, together with the
//! session and resource configuration layer used to run plans against it.

pub mod engine;
pub mod error;
pub mod driver;
pub mod one_shot;
pub mod options;
pub mod session;
pub mod stream;
