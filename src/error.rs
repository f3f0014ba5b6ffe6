use vstd::prelude::*;

verus! {

/// What stopped a scan.
#[derive(Debug, Clone, Copy, PartialEq, Eq, Structural)]
pub enum ErrorKind {
    /// A line break or the end of input before the closing quote.
    UnterminatedString,
    /// A line break or the end of input before the closing `/`.
    UnterminatedRegExp,
    /// A digit separator right after the radix prefix.
    LeadingSeparator,
    /// Two digit separators in a row.
    RepeatedSeparator,
    /// A numeric literal without digits, or with a digit outside its radix.
    MalformedNumber,
    /// A big-integer literal whose value exceeds `i128::MAX`.
    NumericOverflow,
    /// A character that starts no token.
    UnexpectedCharacter,
    /// A token other than a name right after `function`.
    UnexpectedToken,
}

/// A fatal scanning error with the offending text and where it was met.
#[derive(Debug, Clone, PartialEq, Eq)]
pub struct ParseError {
    pub kind: ErrorKind,
    pub lexeme: String,
    pub line: usize,
    pub column: usize,
}

pub struct ErrorView {
    pub kind: ErrorKind,
    pub lexeme: Seq<char>,
    pub line: int,
    pub column: int,
}

impl View for ParseError {
    type V = ErrorView;

    open spec fn view(&self) -> ErrorView {
        ErrorView { kind: self.kind, lexeme: self.lexeme@, line: self.line as int, column: self.column as int }
    }
}

impl ParseError {
    /// A readable message naming the kind, the lexeme and the position.
    pub fn message(&self) -> (r: String) {
        let what = match self.kind {
            ErrorKind::UnterminatedString => "Unterminated string literal",
            ErrorKind::UnterminatedRegExp => "Unterminated regular expression",
            ErrorKind::LeadingSeparator => "Numeric separators are not allowed at the first of numeric literals",
            ErrorKind::RepeatedSeparator => "Only one underscore is allowed as numeric separator",
            ErrorKind::MalformedNumber => "Malformed numeric literal",
            ErrorKind::NumericOverflow => "Numeric literal out of range",
            ErrorKind::UnexpectedCharacter => "Unexpected character",
            ErrorKind::UnexpectedToken => "Unexpected token",
        };
        describe(what, &self.lexeme, self.line, self.column)
    }
}

/// Relies on `format!`: writes the message, the lexeme and the position.
#[verifier::external_body]
fn describe(what: &str, lexeme: &String, line: usize, column: usize) -> (r: String) {
    format!("{} '{}' at line:{}, column:{}", what, lexeme, line, column)
}

} // verus!
