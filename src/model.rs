use vstd::prelude::*;
use crate::error::{ErrorKind, ErrorView};
use crate::string::clamped_slice;
use crate::token::{Arithmetic, Assign, Comparation, Keyword, NumberSystem, Punctuator, RegExpModifier, TokenView};

verus! {

// ---- character classes ----

/// `[0-9A-Za-z$_]`.
pub open spec fn is_identifier_char(c: char) -> bool {
    let u = c as u32;
    (48 <= u <= 57) || (65 <= u <= 90) || (97 <= u <= 122) || c == '$' || c == '_'
}

/// `[0-9]`.
pub open spec fn is_digit(c: char) -> bool {
    let u = c as u32;
    48 <= u <= 57
}

pub open spec fn is_quote(c: char) -> bool {
    c == '\'' || c == '"'
}

pub open spec fn is_line_break(c: char) -> bool {
    c == '\n' || c == '\r'
}

/// The Unicode `White_Space` property.
pub open spec fn is_whitespace(c: char) -> bool {
    let u = c as u32;
    (9 <= u <= 13) || u == 32 || u == 0x85 || u == 0xa0 || u == 0x1680 || (0x2000 <= u <= 0x200a)
        || u == 0x2028 || u == 0x2029 || u == 0x202f || u == 0x205f || u == 0x3000
}

// ---- tables ----

pub open spec fn keyword_of(w: Seq<char>) -> Option<Keyword> {
    if w == "var"@ { Some(Keyword::Var) }
    else if w == "let"@ { Some(Keyword::Let) }
    else if w == "const"@ { Some(Keyword::Const) }
    else if w == "function"@ { Some(Keyword::Function) }
    else if w == "return"@ { Some(Keyword::Return) }
    else if w == "for"@ { Some(Keyword::For) }
    else if w == "of"@ { Some(Keyword::Of) }
    else if w == "do"@ { Some(Keyword::Do) }
    else if w == "while"@ { Some(Keyword::While) }
    else if w == "break"@ { Some(Keyword::Break) }
    else if w == "continue"@ { Some(Keyword::Continue) }
    else if w == "switch"@ { Some(Keyword::Switch) }
    else if w == "case"@ { Some(Keyword::Case) }
    else if w == "throw"@ { Some(Keyword::Throw) }
    else if w == "try"@ { Some(Keyword::Try) }
    else if w == "catch"@ { Some(Keyword::Catch) }
    else if w == "finally"@ { Some(Keyword::Finally) }
    else if w == "if"@ { Some(Keyword::If) }
    else if w == "else"@ { Some(Keyword::Else) }
    else if w == "new"@ { Some(Keyword::New) }
    else if w == "this"@ { Some(Keyword::This) }
    else if w == "super"@ { Some(Keyword::Super) }
    else if w == "delete"@ { Some(Keyword::Delete) }
    else if w == "class"@ { Some(Keyword::Class) }
    else if w == "extends"@ { Some(Keyword::Extends) }
    else if w == "instanceof"@ { Some(Keyword::Instanceof) }
    else if w == "typeof"@ { Some(Keyword::Typeof) }
    else if w == "import"@ { Some(Keyword::Import) }
    else if w == "export"@ { Some(Keyword::Export) }
    else if w == "default"@ { Some(Keyword::Default) }
    else if w == "null"@ { Some(Keyword::Null) }
    else if w == "undefined"@ { Some(Keyword::Undefined) }
    else if w == "true"@ { Some(Keyword::True) }
    else if w == "false"@ { Some(Keyword::False) }
    else if w == "void"@ { Some(Keyword::Void) }
    else if w == "in"@ { Some(Keyword::In) }
    else { None }
}

pub open spec fn punctuator_of(w: Seq<char>) -> Option<TokenView> {
    if w == "=="@ { Some(TokenView::Comparation(Comparation::DoubleE)) }
    else if w == "==="@ { Some(TokenView::Comparation(Comparation::TripleE)) }
    else if w == "!="@ { Some(TokenView::Comparation(Comparation::DoubleNE)) }
    else if w == "!=="@ { Some(TokenView::Comparation(Comparation::TripleNE)) }
    else if w == "<"@ { Some(TokenView::Comparation(Comparation::LT)) }
    else if w == "<="@ { Some(TokenView::Comparation(Comparation::LTE)) }
    else if w == ">"@ { Some(TokenView::Comparation(Comparation::GT)) }
    else if w == ">="@ { Some(TokenView::Comparation(Comparation::GTE)) }
    else if w == "+"@ { Some(TokenView::Arithmetic(Arithmetic::Plus)) }
    else if w == "-"@ { Some(TokenView::Arithmetic(Arithmetic::Minus)) }
    else if w == "*"@ { Some(TokenView::Arithmetic(Arithmetic::Multiple)) }
    else if w == "/"@ { Some(TokenView::Arithmetic(Arithmetic::Divide)) }
    else if w == "%"@ { Some(TokenView::Arithmetic(Arithmetic::Modulo)) }
    else if w == "="@ { Some(TokenView::Assign(Assign::Normal)) }
    else if w == "+="@ { Some(TokenView::Assign(Assign::Addition)) }
    else if w == "-="@ { Some(TokenView::Assign(Assign::Subtraction)) }
    else if w == "*="@ { Some(TokenView::Assign(Assign::Multiplication)) }
    else if w == "/="@ { Some(TokenView::Assign(Assign::Division)) }
    else if w == "??="@ { Some(TokenView::Assign(Assign::NullishCoalescing)) }
    else if w == "("@ { Some(TokenView::Punctuator(Punctuator::ParenL)) }
    else if w == ")"@ { Some(TokenView::Punctuator(Punctuator::ParenR)) }
    else if w == "["@ { Some(TokenView::Punctuator(Punctuator::BracketL)) }
    else if w == "]"@ { Some(TokenView::Punctuator(Punctuator::BracketR)) }
    else if w == "{"@ { Some(TokenView::Punctuator(Punctuator::BraceL)) }
    else if w == "}"@ { Some(TokenView::Punctuator(Punctuator::BraceR)) }
    else if w == "."@ { Some(TokenView::Punctuator(Punctuator::Dot)) }
    else if w == "?."@ { Some(TokenView::Punctuator(Punctuator::QuestionDot)) }
    else if w == ";"@ { Some(TokenView::Punctuator(Punctuator::Semi)) }
    else if w == ","@ { Some(TokenView::Punctuator(Punctuator::Comma)) }
    else if w == ":"@ { Some(TokenView::Punctuator(Punctuator::Colon)) }
    else if w == "?"@ { Some(TokenView::Punctuator(Punctuator::Question)) }
    else if w == "??"@ { Some(TokenView::Punctuator(Punctuator::NullishCoalesce)) }
    else if w == "!"@ { Some(TokenView::Punctuator(Punctuator::LogicalInversion)) }
    else if w == "~"@ { Some(TokenView::Punctuator(Punctuator::BitwiseInversion)) }
    else if w == "||"@ { Some(TokenView::Punctuator(Punctuator::LogicalOR)) }
    else if w == "|"@ { Some(TokenView::Punctuator(Punctuator::BitwiseOR)) }
    else if w == "&&"@ { Some(TokenView::Punctuator(Punctuator::LogicalAND)) }
    else if w == "&"@ { Some(TokenView::Punctuator(Punctuator::BitwiseAND)) }
    else if w == "++"@ { Some(TokenView::Punctuator(Punctuator::Increment)) }
    else if w == "--"@ { Some(TokenView::Punctuator(Punctuator::Decrement)) }
    else if w == "=>"@ { Some(TokenView::Punctuator(Punctuator::Arrow)) }
    else { None }
}

// ---- runs ----

/// Where a run of identifier characters starting at `i` ends.
pub open spec fn identifier_end(s: Seq<char>, i: int) -> int
    decreases s.len() - i,
{
    if 0 <= i < s.len() && is_identifier_char(s[i]) {
        identifier_end(s, i + 1)
    } else {
        i
    }
}

/// Where a quoted body starting at `i` stops: at the first `close` or line
/// break that no backslash escapes, or at the end of input. `esc` tells
/// whether the codepoint at `i` is escaped.
pub open spec fn quoted_end(s: Seq<char>, i: int, close: char, esc: bool) -> int
    decreases s.len() - i,
{
    if 0 <= i < s.len() && (esc || (s[i] != close && !is_line_break(s[i]))) {
        quoted_end(s, i + 1, close, !esc && s[i] == '\\')
    } else {
        i
    }
}

/// `[0-9A-Fa-f]`.
pub open spec fn is_hex_digit(c: char) -> bool {
    let u = c as u32;
    is_digit(c) || (65 <= u <= 70) || (97 <= u <= 102)
}

/// The digits a literal of radix `sys` consumes: hexadecimal digits after
/// `0x`, decimal digits otherwise.
pub open spec fn is_run_digit(c: char, sys: NumberSystem) -> bool {
    if sys == NumberSystem::Hex {
        is_hex_digit(c)
    } else {
        is_digit(c)
    }
}

/// Scans digits of radix `sys` and separators from `i`: `Ok` with where the
/// run ends, or `Err` with the index of a separator that follows another one.
/// `sep` tells whether the codepoint before `i` is a separator of the run.
pub open spec fn digits_end(s: Seq<char>, i: int, sep: bool, sys: NumberSystem) -> Result<int, int>
    decreases s.len() - i,
{
    if 0 <= i < s.len() && (is_run_digit(s[i], sys) || s[i] == '_') {
        if s[i] == '_' && sep {
            Err(i)
        } else {
            digits_end(s, i + 1, s[i] == '_', sys)
        }
    } else {
        Ok(i)
    }
}

pub open spec fn radix_value(sys: NumberSystem) -> int {
    match sys {
        NumberSystem::Binary => 2,
        NumberSystem::Octal => 8,
        NumberSystem::Decimal => 10,
        NumberSystem::Hex => 16,
    }
}

/// The value of a hexadecimal digit.
pub open spec fn digit_value(c: char) -> int {
    let u = c as u32;
    if is_digit(c) {
        u - 48
    } else if 65 <= u <= 70 {
        u - 55
    } else {
        u - 87
    }
}

/// Every digit of `d` is below `base`; separators are skipped.
pub open spec fn digits_in_radix(d: Seq<char>, base: int) -> bool {
    forall|j: int| 0 <= j < d.len() ==> d[j] == '_' || digit_value(#[trigger] d[j]) < base
}

/// The value of a run of digits in `base`, separators skipped.
pub open spec fn digits_value(d: Seq<char>, base: int) -> int
    decreases d.len(),
{
    if d.len() == 0 {
        0
    } else if d.last() == '_' {
        digits_value(d.drop_last(), base)
    } else {
        digits_value(d.drop_last(), base) * base + digit_value(d.last())
    }
}

/// The radix given by the prefix at `pos`, and where the digits start.
pub open spec fn radix_of(s: Seq<char>, pos: int) -> (NumberSystem, int) {
    if s[pos] == '0' && pos + 1 < s.len() && s[pos + 1] == 'b' {
        (NumberSystem::Binary, pos + 2)
    } else if s[pos] == '0' && pos + 1 < s.len() && s[pos + 1] == 'x' {
        (NumberSystem::Hex, pos + 2)
    } else if s[pos] == '0' && pos + 1 < s.len() && is_digit(s[pos + 1]) {
        (NumberSystem::Octal, pos + 1)
    } else {
        (NumberSystem::Decimal, pos)
    }
}

/// The nearest codepoint before `i` that is not whitespace.
pub open spec fn prev_non_whitespace(s: Seq<char>, i: int) -> Option<char>
    decreases i,
{
    if i <= 0 || i > s.len() {
        None
    } else if is_whitespace(s[i - 1]) {
        prev_non_whitespace(s, i - 1)
    } else {
        Some(s[i - 1])
    }
}

/// A `/` at `pos` is an operator after an identifier character, `)` or `]`,
/// and opens a regular expression otherwise.
pub open spec fn slash_is_operator(s: Seq<char>, pos: int) -> bool {
    match prev_non_whitespace(s, pos) {
        Some(p) => is_identifier_char(p) || p == ')' || p == ']',
        None => false,
    }
}

/// The line and column after consuming `[i, e)` from `(line, col)`: a line
/// break moves to the next line at column 0, any other codepoint moves one
/// column on.
pub open spec fn advance(s: Seq<char>, i: int, e: int, line: int, col: int) -> (int, int)
    decreases e - i,
{
    if i < e {
        if is_line_break(s[i]) {
            advance(s, i + 1, e, line + 1, 0)
        } else {
            advance(s, i + 1, e, line, col + 1)
        }
    } else {
        (line, col)
    }
}

// ---- single tokens: `Ok((end, token))` or the error ----

pub open spec fn error_at(kind: ErrorKind, lexeme: Seq<char>, line: int, column: int) -> ErrorView {
    ErrorView { kind, lexeme, line, column }
}

pub open spec fn string_token(s: Seq<char>, pos: int, line: int, col: int) -> Result<(int, TokenView), ErrorView> {
    let e = quoted_end(s, pos + 1, s[pos], false);
    if e < s.len() && s[e] == s[pos] {
        Ok((e + 1, TokenView::String(s.subrange(pos, e + 1), s.subrange(pos + 1, e))))
    } else {
        let (l, c) = advance(s, pos, e, line, col);
        Err(error_at(ErrorKind::UnterminatedString, clamped_slice(s, e, e + 1), l, c))
    }
}

pub open spec fn regexp_token(s: Seq<char>, pos: int, line: int, col: int) -> Result<(int, TokenView), ErrorView> {
    let e = quoted_end(s, pos + 1, '/', false);
    if e < s.len() && s[e] == '/' {
        let m = if e + 1 < s.len() && s[e + 1] == 'i' {
            Some(RegExpModifier::I)
        } else if e + 1 < s.len() && s[e + 1] == 'g' {
            Some(RegExpModifier::G)
        } else {
            None
        };
        let end = if m is Some { e + 2 } else { e + 1 };
        Ok((end, TokenView::RegExp(s.subrange(pos, end), s.subrange(pos + 1, e), m)))
    } else {
        let (l, c) = advance(s, pos, e, line, col);
        Err(error_at(ErrorKind::UnterminatedRegExp, clamped_slice(s, e, e + 1), l, c))
    }
}

pub open spec fn private_name_token(s: Seq<char>, pos: int) -> (int, TokenView) {
    let e = identifier_end(s, pos + 1);
    (e, TokenView::PrivateName(s.subrange(pos, e), s.subrange(pos + 1, e)))
}

/// A numeric literal. Its digits are read in the radix of its prefix; a
/// digit outside that radix makes the literal malformed.
pub open spec fn number_token(s: Seq<char>, pos: int, line: int, col: int) -> Result<(int, TokenView), ErrorView> {
    let (sys, cs) = radix_of(s, pos);
    if cs < s.len() && s[cs] == '_' {
        Err(error_at(ErrorKind::LeadingSeparator, s.subrange(cs, cs + 1), line, col + (cs - pos)))
    } else {
        match digits_end(s, cs, false, sys) {
            Err(j) => Err(error_at(ErrorKind::RepeatedSeparator, s.subrange(j, j + 1), line, col + (j - pos))),
            Ok(e) => {
                let d = s.subrange(cs, e);
                let v = digits_value(d, radix_value(sys));
                if e == cs || !digits_in_radix(d, radix_value(sys)) {
                    Err(error_at(ErrorKind::MalformedNumber, s.subrange(pos, e), line, col))
                } else if e < s.len() && s[e] == 'n' {
                    if v > i128::MAX {
                        Err(error_at(ErrorKind::NumericOverflow, s.subrange(pos, e + 1), line, col))
                    } else {
                        Ok((e + 1, TokenView::Bigint(s.subrange(pos, e + 1), sys, v)))
                    }
                } else {
                    Ok((e, TokenView::Number(s.subrange(pos, e), sys, if v <= u128::MAX { Some(v) } else { None })))
                }
            },
        }
    }
}

/// Longest match over the punctuator table: three codepoints, then two, then
/// one.
pub open spec fn operator_token(s: Seq<char>, pos: int, line: int, col: int) -> Result<(int, TokenView), ErrorView> {
    if pos + 3 <= s.len() && punctuator_of(s.subrange(pos, pos + 3)) is Some {
        Ok((pos + 3, punctuator_of(s.subrange(pos, pos + 3))->Some_0))
    } else if pos + 2 <= s.len() && punctuator_of(s.subrange(pos, pos + 2)) is Some {
        Ok((pos + 2, punctuator_of(s.subrange(pos, pos + 2))->Some_0))
    } else if punctuator_of(s.subrange(pos, pos + 1)) is Some {
        Ok((pos + 1, punctuator_of(s.subrange(pos, pos + 1))->Some_0))
    } else {
        Err(error_at(ErrorKind::UnexpectedCharacter, s.subrange(pos, pos + 1), line, col))
    }
}

/// A token that does not start with a letter, `$` or `_`.
pub open spec fn symbol_token(s: Seq<char>, pos: int, line: int, col: int) -> Result<(int, TokenView), ErrorView> {
    let c = s[pos];
    if c == '/' {
        if slash_is_operator(s, pos) {
            operator_token(s, pos, line, col)
        } else {
            regexp_token(s, pos, line, col)
        }
    } else if is_quote(c) {
        string_token(s, pos, line, col)
    } else if c == '#' {
        Ok(private_name_token(s, pos))
    } else if is_digit(c) {
        number_token(s, pos, line, col)
    } else {
        operator_token(s, pos, line, col)
    }
}

// ---- the scan as a state machine ----

/// A name met by the scan, with its line and its columns.
pub struct NameAt {
    pub name: Seq<char>,
    pub line: int,
    pub start: int,
    pub end: int,
}

/// The state after one step, and what the step emitted.
pub struct Step {
    pub pos: int,
    pub line: int,
    pub column: int,
    pub function_identifier: bool,
    pub token: Option<TokenView>,
    pub name: Option<NameAt>,
}

/// One step of the scan at `pos < s.len()`. `fid` tells whether the previous
/// token was the `function` keyword.
pub open spec fn step(s: Seq<char>, pos: int, line: int, col: int, fid: bool) -> Result<Step, ErrorView> {
    let c = s[pos];
    if is_whitespace(c) {
        if is_line_break(c) {
            Ok(Step { pos: pos + 1, line: line + 1, column: 0, function_identifier: fid, token: None, name: None })
        } else {
            Ok(Step { pos: pos + 1, line, column: col + 1, function_identifier: fid, token: None, name: None })
        }
    } else if !is_identifier_char(c) || is_digit(c) {
        if fid {
            Err(error_at(ErrorKind::UnexpectedToken, s.subrange(pos, pos + 1), line, col))
        } else {
            match symbol_token(s, pos, line, col) {
                Ok((e, t)) => Ok(Step {
                    pos: e,
                    line: advance(s, pos, e, line, col).0,
                    column: advance(s, pos, e, line, col).1,
                    function_identifier: false,
                    token: Some(t),
                    name: None,
                }),
                Err(err) => Err(err),
            }
        }
    } else {
        let e = identifier_end(s, pos);
        let w = s.subrange(pos, e);
        match keyword_of(w) {
            None => Ok(Step {
                pos: e,
                line: advance(s, pos, e, line, col).0,
                column: advance(s, pos, e, line, col).1,
                function_identifier: false,
                token: Some(TokenView::Name(w)),
                name: Some(NameAt { name: w, line, start: col, end: col + (e - pos) }),
            }),
            Some(k) => if fid {
                Err(error_at(ErrorKind::UnexpectedToken, w, line, col))
            } else {
                Ok(Step {
                    pos: e,
                    line: advance(s, pos, e, line, col).0,
                    column: advance(s, pos, e, line, col).1,
                    function_identifier: k == Keyword::Function,
                    token: Some(TokenView::Keyword(k)),
                    name: None,
                })
            },
        }
    }
}

/// What a whole scan yields: the tokens, the names in order, and the final
/// line and column.
pub struct Scanned {
    pub tokens: Seq<TokenView>,
    pub names: Seq<NameAt>,
    pub line: int,
    pub column: int,
}

pub open spec fn opt_push<T>(s: Seq<T>, x: Option<T>) -> Seq<T> {
    match x {
        Some(v) => s.push(v),
        None => s,
    }
}

/// The scan from state `(pos, line, col, fid)` with what was emitted so far.
pub open spec fn run(
    s: Seq<char>,
    pos: int,
    line: int,
    col: int,
    fid: bool,
    tokens: Seq<TokenView>,
    names: Seq<NameAt>,
) -> Result<Scanned, ErrorView>
    decreases s.len() - pos,
{
    if pos < 0 || pos >= s.len() {
        Ok(Scanned { tokens, names, line, column: col })
    } else {
        match step(s, pos, line, col, fid) {
            Err(e) => Err(e),
            Ok(st) => if pos < st.pos <= s.len() {
                run(s, st.pos, st.line, st.column, st.function_identifier,
                    opt_push(tokens, st.token), opt_push(names, st.name))
            } else {
                Ok(Scanned { tokens, names, line, column: col })
            },
        }
    }
}

/// The scan of a whole text.
pub open spec fn lex(s: Seq<char>) -> Result<Scanned, ErrorView> {
    run(s, 0, 1, 0, false, Seq::empty(), Seq::empty())
}

} // verus!
