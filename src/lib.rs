//! A small todo-list service: the item model, an in-memory persistence
//! gateway, the metric counters, the text exposition of the metrics and the
//! decisions of the five request handlers, with the laws that tie them
//! together. The HTTP server, the relational store and prometheus's live
//! counter objects stay with the caller, who hands the library plain values.

pub mod exposition;
pub mod handlers;
pub mod laws;
pub mod metrics;
pub mod service;
pub mod store;
pub mod todo;
