use vstd::prelude::*;
use crate::node::{Expression, Statement};

verus! {

/// Grammar state that the lexer consults and updates, and the sinks it
/// appends nodes to.
pub struct Context {
    /// Set by the `function` keyword, cleared by the name that follows.
    pub is_function_identifier: bool,
    /// Set while inside a directive prologue.
    pub is_directive: bool,
    /// Set while scanning a binding position.
    pub is_pattern: bool,
    /// The statement list being built.
    pub statements: Vec<Statement>,
    /// The expression list of the innermost open expression context, if any.
    pub expressions: Option<Vec<Expression>>,
}

impl Context {
    pub fn new(statements: Vec<Statement>) -> (r: Self)
        ensures
            !r.is_function_identifier,
            !r.is_directive,
            !r.is_pattern,
            r.statements == statements,
            r.expressions is None,
    {
        Context {
            is_function_identifier: false,
            is_directive: false,
            is_pattern: false,
            statements,
            expressions: None,
        }
    }
}

} // verus!
