//! Core logic of a small teacher/course web service, verified with Verus.
//!
//! The service exposes two resources, teachers and courses, over HTTP with a
//! relational database behind them.  Everything the service decides or
//! computes on its own — mapping raw database rows to models, filling in
//! defaults for absent columns, merging partial updates over an existing row,
//! classifying failures and choosing their HTTP status codes, and formatting
//! the health-check message — lives here with contracts.  The HTTP routing
//! and the SQL statements themselves are plain I/O and stay outside.

pub mod columns;
pub mod course;
pub mod errors;
pub mod health;
pub mod teacher;
