//! Data-access logic of a small customer and appointment manager: the
//! statements each repository sends to the relational store, the mapping of
//! raw rows to entities, and the scheduling fields derived at read time.

pub mod error;
pub mod model;
pub mod time;
pub mod statement;
pub mod store;
pub mod sequence;
pub mod employee;
pub mod appointment;
pub mod customer;
pub mod preference;
