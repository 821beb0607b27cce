pub mod ast;
pub mod checker;
pub mod env;
pub mod error;
pub mod laws;
pub mod lexer;
pub mod parser;
pub mod rules;
pub mod types;
