//! The data model.

pub mod general;
