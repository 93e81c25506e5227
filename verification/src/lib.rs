//! A user directory: validated user records kept in an in-memory store,
//! and the operations a front end runs against it.
//!
//! * [`models`] holds the records: users, envelope headers, requests
//!   and answers.
//! * [`validation`] holds the field rules and the check that reports
//!   every rule a candidate breaks.
//! * [`repository`] is the store, one owner of a map from identifier to
//!   user.
//! * [`service`] decides what each operation answers and what it leaves
//!   in the store.
//! * [`server`] shares one store among many callers behind a lock, and
//!   draws the identifiers and headers that the operations need.
//! * [`responses`] names the answers, one variant per status.
//! * [`identifier`] and [`envelope`] draw identifiers and headers.
//! * [`query`] writes and reads the records in query-parameter form.

pub mod envelope;
pub mod identifier;
pub mod models;
pub mod query;
pub mod repository;
pub mod responses;
pub mod server;
pub mod service;
pub mod validation;
