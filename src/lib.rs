//! A small service library for projects, code snippets and uploaded files:
//! the records it keeps, how they are built and merged, how they are written
//! to and read back from table rows, and which outcome each request gets.

pub mod models;
pub mod ids;
pub mod tags;
pub mod outcome;
pub mod records;
pub mod rows;
pub mod sql;
pub mod laws;
