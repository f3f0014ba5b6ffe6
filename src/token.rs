use vstd::prelude::*;

verus! {

#[derive(Debug, Clone, Copy, PartialEq, Eq, Structural)]
pub enum Comparation {
    DoubleE,
    TripleE,
    DoubleNE,
    TripleNE,
    LT,
    LTE,
    GT,
    GTE,
}

#[derive(Debug, Clone, Copy, PartialEq, Eq, Structural)]
pub enum Arithmetic {
    Plus,
    Minus,
    Multiple,
    Divide,
    Modulo,
}

#[derive(Debug, Clone, Copy, PartialEq, Eq, Structural)]
pub enum Assign {
    Normal,
    Addition,
    Subtraction,
    Multiplication,
    Division,
    NullishCoalescing,
}

/// The radix of a numeric literal, as given by its prefix.
#[derive(Debug, Clone, Copy, PartialEq, Eq, Structural)]
pub enum NumberSystem {
    Binary,
    Octal,
    Decimal,
    Hex,
}

#[derive(Debug, Clone, Copy, PartialEq, Eq, Structural)]
pub enum RegExpModifier {
    I,
    G,
}

/// The reserved words.
#[derive(Debug, Clone, Copy, PartialEq, Eq, Structural)]
pub enum Keyword {
    Var,
    Let,
    Const,
    Function,
    Return,
    For,
    Of,
    Do,
    While,
    Break,
    Continue,
    Switch,
    Case,
    Throw,
    Try,
    Catch,
    Finally,
    If,
    Else,
    New,
    This,
    Super,
    Delete,
    Class,
    Extends,
    Instanceof,
    Typeof,
    Import,
    Export,
    Default,
    Null,
    Undefined,
    True,
    False,
    Void,
    In,
}

/// Brackets and the other punctuators that are not arithmetic, comparison or
/// assignment operators.
#[derive(Debug, Clone, Copy, PartialEq, Eq, Structural)]
pub enum Punctuator {
    ParenL,
    ParenR,
    BracketL,
    BracketR,
    BraceL,
    BraceR,
    Dot,
    QuestionDot,
    Semi,
    Comma,
    Colon,
    Question,
    NullishCoalesce,
    LogicalInversion,
    BitwiseInversion,
    LogicalOR,
    BitwiseOR,
    LogicalAND,
    BitwiseAND,
    Increment,
    Decrement,
    Arrow,
}

/// A lexical token. Literal tokens keep their raw text next to the decoded
/// content.
#[derive(Debug, Clone, PartialEq, Eq)]
pub enum Token {
    /// Raw text, radix, and the value of the digit run read in that radix
    /// with separators skipped; `None` when the value exceeds `u128::MAX`
    /// (numeric literals here are integers, held exactly).
    Number(String, NumberSystem, Option<u128>),
    /// Raw text (suffix included), radix, and the value read in that radix.
    Bigint(String, NumberSystem, i128),
    /// Raw text, pattern body, and the optional modifier.
    RegExp(String, String, Option<RegExpModifier>),
    /// Raw text with its quotes, and the content between them (escapes kept).
    String(String, String),
    Name(String),
    /// Raw text `#name`, and `name`.
    PrivateName(String, String),
    Keyword(Keyword),
    Comparation(Comparation),
    Arithmetic(Arithmetic),
    Assign(Assign),
    Punctuator(Punctuator),
}

/// The mathematical model of a token: texts as codepoint sequences and
/// decoded values as integers.
pub enum TokenView {
    Number(Seq<char>, NumberSystem, Option<int>),
    Bigint(Seq<char>, NumberSystem, int),
    RegExp(Seq<char>, Seq<char>, Option<RegExpModifier>),
    String(Seq<char>, Seq<char>),
    Name(Seq<char>),
    PrivateName(Seq<char>, Seq<char>),
    Keyword(Keyword),
    Comparation(Comparation),
    Arithmetic(Arithmetic),
    Assign(Assign),
    Punctuator(Punctuator),
}

impl View for Token {
    type V = TokenView;

    open spec fn view(&self) -> TokenView {
        match self {
            Token::Number(raw, sys, v) => TokenView::Number(
                raw@,
                *sys,
                match v {
                    Some(x) => Some(*x as int),
                    None => None,
                },
            ),
            Token::Bigint(raw, sys, v) => TokenView::Bigint(raw@, *sys, *v as int),
            Token::RegExp(raw, body, m) => TokenView::RegExp(raw@, body@, *m),
            Token::String(raw, content) => TokenView::String(raw@, content@),
            Token::Name(name) => TokenView::Name(name@),
            Token::PrivateName(raw, content) => TokenView::PrivateName(raw@, content@),
            Token::Keyword(k) => TokenView::Keyword(*k),
            Token::Comparation(c) => TokenView::Comparation(*c),
            Token::Arithmetic(a) => TokenView::Arithmetic(*a),
            Token::Assign(a) => TokenView::Assign(*a),
            Token::Punctuator(p) => TokenView::Punctuator(*p),
        }
    }
}

/// The models of a token sequence, in order.
pub open spec fn token_views(ts: Seq<Token>) -> Seq<TokenView> {
    ts.map_values(|t: Token| t@)
}

} // verus!
