//! Front end of an ECMAScript-family pipeline: a context-sensitive lexer and
//! an ESTree-style syntax tree model.

pub mod string;
pub mod token;
pub mod node;
pub mod error;
pub mod model;
pub mod context;
pub mod parser;
pub mod lemmas;
