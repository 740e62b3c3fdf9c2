//! Core of a concurrent echo benchmark: configuration, message construction,
//! per-worker accounting, stop signalling, result aggregation, the latency
//! artifact and the report arithmetic. The surrounding binary owns the
//! sockets, threads and files and drives these verified pieces.

pub mod collector;
pub mod config;
pub mod message;
pub mod report;
pub mod sink;
pub mod stop;
pub mod worker;
