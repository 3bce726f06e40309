//! Statements in the form in which they are carried out.

pub mod select_query;

pub use crate::parser::ast::{Condition, Type};
