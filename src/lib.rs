//! A tamper-evident vote ledger: every accepted vote is chained into an
//! append-only sequence of hash-linked blocks, and stored votes can be
//! tallied by choice.
pub mod digest;
pub mod model;
pub mod chain;
pub mod ingest;
pub mod tally;
