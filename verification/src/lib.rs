//! A parser for a small SQL-like language, and the tables its statements
//! work on.

pub mod ast;
pub mod data_manager;
pub mod lexer;
pub mod parser;
pub mod strings;
