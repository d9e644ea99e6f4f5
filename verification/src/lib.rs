//! A load generator for a fixed web form: it builds synthetic identity
//! records, serialises each into a urlencoded form body of seven fields,
//! and classifies the outcome of every submission attempt.
//!
//! The record derivation, the form layout and the per-worker loop decisions
//! are verified here; the process edges (threads, the HTTP client, console
//! colouring) live outside the library and only feed it plain values.

pub mod entropy;
pub mod form;
pub mod record;
pub mod worker;
