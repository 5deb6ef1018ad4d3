//! Moves a listening history into the library of a streaming service: for
//! each record of the history, the catalog track that matches it best is
//! looked up and, where changes are wanted, saved.
//!
//! This crate holds the rules of that import as functions on plain values,
//! each with a contract that the verifier has checked against its body. It
//! sends no request and writes no file. A caller asks [`matcher`] and
//! [`mutator`] what to send, sends it, and hands the answer to [`worker`],
//! which says what became of the record. [`collector`] counts the outcomes,
//! and [`report`] sums the run up. [`pool`] and [`batch`] hold what is true
//! of a run as a whole: every record has one outcome, and neither the number
//! of workers nor the order of their turns changes what arrives.
//!
//! Two things are taken on trust, each in a private function of its own: how
//! the `cookie` crate writes a cookie, in [`access_token`], and the reading
//! of the clock through `chrono`, in [`report`].

pub mod access_token;
pub mod batch;
pub mod cli;
pub mod collector;
pub mod http;
pub mod matcher;
pub mod message;
pub mod mutator;
pub mod pool;
pub mod query;
pub mod record;
pub mod report;
pub mod source;
pub mod text;
pub mod worker;
