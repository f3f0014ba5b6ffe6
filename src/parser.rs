use vstd::prelude::*;
use vstd::string::StrSliceExecFns;
use crate::context::Context;
use crate::error::{ErrorKind, ErrorView, ParseError};
use crate::model::{advance, digit_value, digits_end, digits_in_radix, digits_value, is_hex_digit, is_run_digit, radix_value, error_at, identifier_end, is_digit, is_identifier_char, is_line_break, is_whitespace, keyword_of, lex, number_token, operator_token, opt_push, prev_non_whitespace, private_name_token, punctuator_of, quoted_end, radix_of, regexp_token, run, step, string_token, NameAt, Scanned, Step};
use crate::node::{Expression, FunctionDeclaration, FunctionExpression, Identifier, Position, Program, Statement};
use crate::string::{clamped_slice, ReadonlyString};
use crate::token::{Arithmetic, Assign, Comparation, Keyword, NumberSystem, Punctuator, RegExpModifier, Token, TokenView, token_views};

verus! {

// ---- character access ----

/// The codepoint at `position` as text; empty past the end.
fn get_char(src: &ReadonlyString, position: usize) -> (r: &str)
    requires
        src.wf(),
        position < usize::MAX,
    ensures
        r@ == clamped_slice(src@, position as int, position + 1),
{
    match src.slice(position, position + 1) {
        Ok(t) => t,
        Err(_) => "",
    }
}

/// The text in `[begin, end)`.
fn text(src: &ReadonlyString, begin: usize, end: usize) -> (r: &str)
    requires
        src.wf(),
        begin <= end <= src@.len(),
    ensures
        r@ == src@.subrange(begin as int, end as int),
{
    match src.slice(begin, end) {
        Ok(t) => t,
        Err(_) => "",
    }
}

fn char_at(src: &ReadonlyString, position: usize) -> (r: char)
    requires
        src.wf(),
        position < src@.len(),
    ensures
        r == src@[position as int],
{
    let t = get_char(src, position);
    t.get_char(0)
}

/// Whether two texts hold the same codepoints.
fn same_text(a: &str, b: &str) -> (r: bool)
    ensures
        r == (a@ == b@),
{
    let n = a.unicode_len();
    if n != b.unicode_len() {
        return false;
    }
    let mut i: usize = 0;
    while i < n
        invariant
            n == a@.len(),
            n == b@.len(),
            i <= n,
            forall|j: int| 0 <= j < i ==> a@[j] == b@[j],
        decreases n - i,
    {
        if a.get_char(i) != b.get_char(i) {
            return false;
        }
        i += 1;
    }
    assert(a@ =~= b@);
    true
}

/// The line and column after consuming `[from, to)` from `(line, column)`.
fn advance_position(src: &ReadonlyString, from: usize, to: usize, line: usize, column: usize) -> (r: (usize, usize))
    requires
        src.wf(),
        src@.len() < usize::MAX,
        from <= to <= src@.len(),
        column <= from,
        line <= from + 1,
    ensures
        (r.0 as int, r.1 as int) == advance(src@, from as int, to as int, line as int, column as int),
        r.1 <= to,
        line <= r.0 <= to + 1,
{
    let mut k = from;
    let mut l = line;
    let mut c = column;
    while k < to
        invariant
            src.wf(),
            src@.len() < usize::MAX,
            from <= k <= to <= src@.len(),
            c <= k,
            line <= l <= k + 1,
            advance(src@, k as int, to as int, l as int, c as int) == advance(
                src@,
                from as int,
                to as int,
                line as int,
                column as int,
            ),
        decreases to - k,
    {
        if line_break_char(char_at(src, k)) {
            l = l + 1;
            c = 0;
        } else {
            c = c + 1;
        }
        k = k + 1;
    }
    (l, c)
}

// ---- character classes ----

fn identifier_char(c: char) -> (r: bool)
    ensures
        r == is_identifier_char(c),
{
    let u = c as u32;
    (48 <= u && u <= 57) || (65 <= u && u <= 90) || (97 <= u && u <= 122) || c == '$' || c == '_'
}

fn digit_char(c: char) -> (r: bool)
    ensures
        r == is_digit(c),
{
    let u = c as u32;
    48 <= u && u <= 57
}

fn line_break_char(c: char) -> (r: bool)
    ensures
        r == is_line_break(c),
{
    c == '\n' || c == '\r'
}

fn whitespace_char(c: char) -> (r: bool)
    ensures
        r == is_whitespace(c),
{
    let u = c as u32;
    (9 <= u && u <= 13) || u == 32 || u == 0x85 || u == 0xa0 || u == 0x1680 || (0x2000 <= u && u
        <= 0x200a) || u == 0x2028 || u == 0x2029 || u == 0x202f || u == 0x205f || u == 0x3000
}

// ---- tables ----

fn keyword_by_name(word: &str) -> (r: Option<Keyword>)
    ensures
        r == keyword_of(word@),
{
    if same_text(word, "var") {
        Some(Keyword::Var)
    } else if same_text(word, "let") {
        Some(Keyword::Let)
    } else if same_text(word, "const") {
        Some(Keyword::Const)
    } else if same_text(word, "function") {
        Some(Keyword::Function)
    } else if same_text(word, "return") {
        Some(Keyword::Return)
    } else if same_text(word, "for") {
        Some(Keyword::For)
    } else if same_text(word, "of") {
        Some(Keyword::Of)
    } else if same_text(word, "do") {
        Some(Keyword::Do)
    } else if same_text(word, "while") {
        Some(Keyword::While)
    } else if same_text(word, "break") {
        Some(Keyword::Break)
    } else if same_text(word, "continue") {
        Some(Keyword::Continue)
    } else if same_text(word, "switch") {
        Some(Keyword::Switch)
    } else if same_text(word, "case") {
        Some(Keyword::Case)
    } else if same_text(word, "throw") {
        Some(Keyword::Throw)
    } else if same_text(word, "try") {
        Some(Keyword::Try)
    } else if same_text(word, "catch") {
        Some(Keyword::Catch)
    } else if same_text(word, "finally") {
        Some(Keyword::Finally)
    } else if same_text(word, "if") {
        Some(Keyword::If)
    } else if same_text(word, "else") {
        Some(Keyword::Else)
    } else if same_text(word, "new") {
        Some(Keyword::New)
    } else if same_text(word, "this") {
        Some(Keyword::This)
    } else if same_text(word, "super") {
        Some(Keyword::Super)
    } else if same_text(word, "delete") {
        Some(Keyword::Delete)
    } else if same_text(word, "class") {
        Some(Keyword::Class)
    } else if same_text(word, "extends") {
        Some(Keyword::Extends)
    } else if same_text(word, "instanceof") {
        Some(Keyword::Instanceof)
    } else if same_text(word, "typeof") {
        Some(Keyword::Typeof)
    } else if same_text(word, "import") {
        Some(Keyword::Import)
    } else if same_text(word, "export") {
        Some(Keyword::Export)
    } else if same_text(word, "default") {
        Some(Keyword::Default)
    } else if same_text(word, "null") {
        Some(Keyword::Null)
    } else if same_text(word, "undefined") {
        Some(Keyword::Undefined)
    } else if same_text(word, "true") {
        Some(Keyword::True)
    } else if same_text(word, "false") {
        Some(Keyword::False)
    } else if same_text(word, "void") {
        Some(Keyword::Void)
    } else if same_text(word, "in") {
        Some(Keyword::In)
    } else {
        None
    }
}

/// The punctuator spelled by `chars`, if any.
fn get_operator_by_chars(chars: &str) -> (r: Option<Token>)
    ensures
        r matches Some(t) ==> punctuator_of(chars@) == Some(t@),
        r is None ==> punctuator_of(chars@) is None,
{
    if same_text(chars, "==") {
        Some(Token::Comparation(Comparation::DoubleE))
    } else if same_text(chars, "===") {
        Some(Token::Comparation(Comparation::TripleE))
    } else if same_text(chars, "!=") {
        Some(Token::Comparation(Comparation::DoubleNE))
    } else if same_text(chars, "!==") {
        Some(Token::Comparation(Comparation::TripleNE))
    } else if same_text(chars, "<") {
        Some(Token::Comparation(Comparation::LT))
    } else if same_text(chars, "<=") {
        Some(Token::Comparation(Comparation::LTE))
    } else if same_text(chars, ">") {
        Some(Token::Comparation(Comparation::GT))
    } else if same_text(chars, ">=") {
        Some(Token::Comparation(Comparation::GTE))
    } else if same_text(chars, "+") {
        Some(Token::Arithmetic(Arithmetic::Plus))
    } else if same_text(chars, "-") {
        Some(Token::Arithmetic(Arithmetic::Minus))
    } else if same_text(chars, "*") {
        Some(Token::Arithmetic(Arithmetic::Multiple))
    } else if same_text(chars, "/") {
        Some(Token::Arithmetic(Arithmetic::Divide))
    } else if same_text(chars, "%") {
        Some(Token::Arithmetic(Arithmetic::Modulo))
    } else if same_text(chars, "=") {
        Some(Token::Assign(Assign::Normal))
    } else if same_text(chars, "+=") {
        Some(Token::Assign(Assign::Addition))
    } else if same_text(chars, "-=") {
        Some(Token::Assign(Assign::Subtraction))
    } else if same_text(chars, "*=") {
        Some(Token::Assign(Assign::Multiplication))
    } else if same_text(chars, "/=") {
        Some(Token::Assign(Assign::Division))
    } else if same_text(chars, "??=") {
        Some(Token::Assign(Assign::NullishCoalescing))
    } else if same_text(chars, "(") {
        Some(Token::Punctuator(Punctuator::ParenL))
    } else if same_text(chars, ")") {
        Some(Token::Punctuator(Punctuator::ParenR))
    } else if same_text(chars, "[") {
        Some(Token::Punctuator(Punctuator::BracketL))
    } else if same_text(chars, "]") {
        Some(Token::Punctuator(Punctuator::BracketR))
    } else if same_text(chars, "{") {
        Some(Token::Punctuator(Punctuator::BraceL))
    } else if same_text(chars, "}") {
        Some(Token::Punctuator(Punctuator::BraceR))
    } else if same_text(chars, ".") {
        Some(Token::Punctuator(Punctuator::Dot))
    } else if same_text(chars, "?.") {
        Some(Token::Punctuator(Punctuator::QuestionDot))
    } else if same_text(chars, ";") {
        Some(Token::Punctuator(Punctuator::Semi))
    } else if same_text(chars, ",") {
        Some(Token::Punctuator(Punctuator::Comma))
    } else if same_text(chars, ":") {
        Some(Token::Punctuator(Punctuator::Colon))
    } else if same_text(chars, "?") {
        Some(Token::Punctuator(Punctuator::Question))
    } else if same_text(chars, "??") {
        Some(Token::Punctuator(Punctuator::NullishCoalesce))
    } else if same_text(chars, "!") {
        Some(Token::Punctuator(Punctuator::LogicalInversion))
    } else if same_text(chars, "~") {
        Some(Token::Punctuator(Punctuator::BitwiseInversion))
    } else if same_text(chars, "||") {
        Some(Token::Punctuator(Punctuator::LogicalOR))
    } else if same_text(chars, "|") {
        Some(Token::Punctuator(Punctuator::BitwiseOR))
    } else if same_text(chars, "&&") {
        Some(Token::Punctuator(Punctuator::LogicalAND))
    } else if same_text(chars, "&") {
        Some(Token::Punctuator(Punctuator::BitwiseAND))
    } else if same_text(chars, "++") {
        Some(Token::Punctuator(Punctuator::Increment))
    } else if same_text(chars, "--") {
        Some(Token::Punctuator(Punctuator::Decrement))
    } else if same_text(chars, "=>") {
        Some(Token::Punctuator(Punctuator::Arrow))
    } else {
        None
    }
}

// ---- scanners ----

/// A scanner's result agrees with the model's.
pub open spec fn scanned_as(r: Result<(usize, Token), ParseError>, m: Result<(int, TokenView), ErrorView>) -> bool {
    match m {
        Ok((e, t)) => r matches Ok((e2, t2)) && e2 == e && t2@ == t,
        Err(err) => r matches Err(x) && x@ == err,
    }
}

/// Where the run of identifier characters from `start` ends.
fn scan_identifier_run(src: &ReadonlyString, start: usize) -> (e: usize)
    requires
        src.wf(),
        start <= src@.len(),
    ensures
        e == identifier_end(src@, start as int),
        start <= e <= src@.len(),
{
    let mut i = start;
    loop
        invariant
            src.wf(),
            start <= i <= src@.len(),
            identifier_end(src@, i as int) == identifier_end(src@, start as int),
        ensures
            start <= i <= src@.len(),
            identifier_end(src@, i as int) == i,
            identifier_end(src@, i as int) == identifier_end(src@, start as int),
        decreases src@.len() - i,
    {
        if i >= src.length || !identifier_char(char_at(src, i)) {
            break;
        }
        i += 1;
    }
    i
}

/// Where a quoted body from `start` stops: at an unescaped `close` or line
/// break, or at the end of input.
fn scan_quoted(src: &ReadonlyString, start: usize, close: char) -> (e: usize)
    requires
        src.wf(),
        start <= src@.len(),
    ensures
        e == quoted_end(src@, start as int, close, false),
        start <= e <= src@.len(),
{
    let mut i = start;
    let mut esc = false;
    loop
        invariant
            src.wf(),
            start <= i <= src@.len(),
            quoted_end(src@, i as int, close, esc) == quoted_end(src@, start as int, close, false),
        ensures
            start <= i <= src@.len(),
            quoted_end(src@, i as int, close, esc) == i,
            quoted_end(src@, i as int, close, esc) == quoted_end(src@, start as int, close, false),
        decreases src@.len() - i,
    {
        if i >= src.length {
            break;
        }
        let c = char_at(src, i);
        if !esc && (c == close || line_break_char(c)) {
            break;
        }
        esc = !esc && c == '\\';
        i += 1;
    }
    i
}

fn read_string(src: &ReadonlyString, position: usize, line: usize, column: usize) -> (r: Result<(usize, Token), ParseError>)
    requires
        src.wf(),
        src@.len() < usize::MAX,
        position < src@.len(),
        column <= position,
        line <= position + 1,
    ensures
        scanned_as(r, string_token(src@, position as int, line as int, column as int)),
        r matches Ok((e, _)) ==> position < e <= src@.len(),
{
    let boundary = char_at(src, position);
    let e = scan_quoted(src, position + 1, boundary);
    if e < src.length && char_at(src, e) == boundary {
        let raw = text(src, position, e + 1);
        let content = text(src, position + 1, e);
        Ok((e + 1, Token::String(raw.to_owned(), content.to_owned())))
    } else {
        let (l, c) = advance_position(src, position, e, line, column);
        Err(ParseError { kind: ErrorKind::UnterminatedString, lexeme: get_char(src, e).to_owned(), line: l, column: c })
    }
}

fn read_reg_exp(src: &ReadonlyString, position: usize, line: usize, column: usize) -> (r: Result<(usize, Token), ParseError>)
    requires
        src.wf(),
        src@.len() < usize::MAX,
        position < src@.len(),
        column <= position,
        line <= position + 1,
    ensures
        scanned_as(r, regexp_token(src@, position as int, line as int, column as int)),
        r matches Ok((e, _)) ==> position < e <= src@.len(),
{
    let e = scan_quoted(src, position + 1, '/');
    if e < src.length && char_at(src, e) == '/' {
        let mut end = e + 1;
        let mut modifier: Option<RegExpModifier> = None;
        if end < src.length {
            let m = char_at(src, end);
            if m == 'i' {
                modifier = Some(RegExpModifier::I);
                end = end + 1;
            } else if m == 'g' {
                modifier = Some(RegExpModifier::G);
                end = end + 1;
            }
        }
        let raw = text(src, position, end);
        let content = text(src, position + 1, e);
        Ok((end, Token::RegExp(raw.to_owned(), content.to_owned(), modifier)))
    } else {
        let (l, c) = advance_position(src, position, e, line, column);
        Err(ParseError { kind: ErrorKind::UnterminatedRegExp, lexeme: get_char(src, e).to_owned(), line: l, column: c })
    }
}

fn read_private_name(src: &ReadonlyString, position: usize) -> (r: (usize, Token))
    requires
        src.wf(),
        position < src@.len(),
    ensures
        r.0 == private_name_token(src@, position as int).0,
        r.1@ == private_name_token(src@, position as int).1,
        position < r.0 <= src@.len(),
{
    let e = scan_identifier_run(src, position + 1);
    let raw = text(src, position, e);
    let content = text(src, position + 1, e);
    (e, Token::PrivateName(raw.to_owned(), content.to_owned()))
}

/// Longest match over the punctuator table.
fn read_operator(src: &ReadonlyString, position: usize, line: usize, column: usize) -> (r: Result<(usize, Token), ParseError>)
    requires
        src.wf(),
        position < src@.len(),
    ensures
        scanned_as(r, operator_token(src@, position as int, line as int, column as int)),
        r matches Ok((e, _)) ==> position < e <= src@.len(),
{
    if src.length - position >= 3 {
        match get_operator_by_chars(text(src, position, position + 3)) {
            Some(t) => {
                return Ok((position + 3, t));
            },
            None => {},
        }
    }
    if src.length - position >= 2 {
        match get_operator_by_chars(text(src, position, position + 2)) {
            Some(t) => {
                return Ok((position + 2, t));
            },
            None => {},
        }
    }
    let char1 = text(src, position, position + 1);
    match get_operator_by_chars(char1) {
        Some(t) => Ok((position + 1, t)),
        None => Err(ParseError { kind: ErrorKind::UnexpectedCharacter, lexeme: char1.to_owned(), line, column }),
    }
}

/// The nearest codepoint before `start` that is not whitespace.
fn find_prev_char_ignore_whitespace(src: &ReadonlyString, start: usize) -> (r: Option<char>)
    requires
        src.wf(),
        start <= src@.len(),
    ensures
        r == prev_non_whitespace(src@, start as int),
{
    let mut i = start;
    loop
        invariant
            src.wf(),
            i <= start <= src@.len(),
            prev_non_whitespace(src@, i as int) == prev_non_whitespace(src@, start as int),
        decreases i,
    {
        if i == 0 {
            return None;
        }
        let c = char_at(src, i - 1);
        if !whitespace_char(c) {
            return Some(c);
        }
        i -= 1;
    }
}

fn hex_digit_char(c: char) -> (r: bool)
    ensures
        r == is_hex_digit(c),
{
    let u = c as u32;
    digit_char(c) || (65 <= u && u <= 70) || (97 <= u && u <= 102)
}

fn run_digit(c: char, system: NumberSystem) -> (r: bool)
    ensures
        r == is_run_digit(c, system),
{
    if system == NumberSystem::Hex {
        hex_digit_char(c)
    } else {
        digit_char(c)
    }
}

fn digit_of(c: char) -> (r: u128)
    requires
        is_hex_digit(c),
    ensures
        r == digit_value(c),
        r < 16,
{
    let u = c as u32;
    if digit_char(c) {
        (u - 48) as u128
    } else if 65 <= u && u <= 70 {
        (u - 55) as u128
    } else {
        (u - 87) as u128
    }
}

fn radix(system: NumberSystem) -> (r: u128)
    ensures
        r == radix_value(system),
{
    match system {
        NumberSystem::Binary => 2,
        NumberSystem::Octal => 8,
        NumberSystem::Decimal => 10,
        NumberSystem::Hex => 16,
    }
}

fn read_numberic(src: &ReadonlyString, position: usize, line: usize, column: usize) -> (r: Result<(usize, Token), ParseError>)
    requires
        src.wf(),
        src@.len() < usize::MAX,
        position < src@.len(),
        column <= position,
    ensures
        scanned_as(r, number_token(src@, position as int, line as int, column as int)),
        r matches Ok((e, _)) ==> position < e <= src@.len(),
{
    let ghost s = src@;
    let c0 = char_at(src, position);
    let (system, content_start) = if c0 == '0' && position + 1 < src.length {
        let c1 = char_at(src, position + 1);
        if c1 == 'b' {
            (NumberSystem::Binary, position + 2)
        } else if c1 == 'x' {
            (NumberSystem::Hex, position + 2)
        } else if digit_char(c1) {
            (NumberSystem::Octal, position + 1)
        } else {
            (NumberSystem::Decimal, position)
        }
    } else {
        (NumberSystem::Decimal, position)
    };
    assert(radix_of(s, position as int) == (system, content_start as int));
    if content_start < src.length && char_at(src, content_start) == '_' {
        return Err(ParseError {
            kind: ErrorKind::LeadingSeparator,
            lexeme: text(src, content_start, content_start + 1).to_owned(),
            line,
            column: column + (content_start - position),
        });
    }
    // digits and single separators
    let mut i = content_start;
    let mut separate = false;
    loop
        invariant
            src.wf(),
            s == src@,
            content_start <= i <= s.len(),
            position <= content_start,
            column <= position,
            radix_of(s, position as int) == (system, content_start as int),
            !(content_start < s.len() && s[content_start as int] == '_'),
            digits_end(s, i as int, separate, system) == digits_end(s, content_start as int, false, system),
            forall|j: int| content_start <= j < i ==> is_hex_digit(#[trigger] s[j]) || s[j] == '_',
        ensures
            content_start <= i <= s.len(),
            digits_end(s, content_start as int, false, system) == Ok::<int, int>(i as int),
            forall|j: int| content_start <= j < i ==> is_hex_digit(#[trigger] s[j]) || s[j] == '_',
        decreases s.len() - i,
    {
        if i >= src.length {
            break;
        }
        let c = char_at(src, i);
        if !(run_digit(c, system) || c == '_') {
            break;
        }
        if c == '_' && separate {
            return Err(ParseError {
                kind: ErrorKind::RepeatedSeparator,
                lexeme: text(src, i, i + 1).to_owned(),
                line,
                column: column + (i - position),
            });
        }
        separate = c == '_';
        i += 1;
    }
    let e = i;
    let raw = text(src, position, e);
    if e == content_start {
        return Err(ParseError { kind: ErrorKind::MalformedNumber, lexeme: raw.to_owned(), line, column });
    }
    // the value of the digits in the literal's radix
    let base = radix(system);
    let ghost b = base as int;
    let mut value: u128 = 0;
    let mut overflow = false;
    let mut k = content_start;
    while k < e
        invariant
            src.wf(),
            s == src@,
            raw@ == s.subrange(position as int, e as int),
            content_start <= k <= e <= s.len(),
            content_start < e,
            2 <= b <= 16,
            b == radix_value(system),
            base as int == b,
            digits_end(s, content_start as int, false, system) == Ok::<int, int>(e as int),
            radix_of(s, position as int) == (system, content_start as int),
            !(content_start < s.len() && s[content_start as int] == '_'),
            forall|j: int| content_start <= j < e ==> is_hex_digit(#[trigger] s[j]) || s[j] == '_',
            digits_in_radix(s.subrange(content_start as int, k as int), b),
            !overflow ==> value == digits_value(s.subrange(content_start as int, k as int), b),
            overflow ==> digits_value(s.subrange(content_start as int, k as int), b) > u128::MAX,
        decreases e - k,
    {
        let c = char_at(src, k);
        let ghost prev_digits = s.subrange(content_start as int, k as int);
        let ghost next_digits = s.subrange(content_start as int, k + 1);
        let ghost prev = digits_value(prev_digits, b);
        assert(next_digits.drop_last() =~= prev_digits);
        assert(next_digits.last() == c);
        if c != '_' {
            let d = digit_of(c);
            if d >= base {
                proof {
                    let full = s.subrange(content_start as int, e as int);
                    let jj = k - content_start;
                    assert(full[jj] == c);
                    assert(!(full[jj] == '_' || digit_value(full[jj]) < b));
                }
                return Err(ParseError { kind: ErrorKind::MalformedNumber, lexeme: raw.to_owned(), line, column });
            }
            if overflow {
                assert(prev * b + d >= prev) by (nonlinear_arith)
                    requires prev > 0, d >= 0, b >= 2;
            } else if value > (u128::MAX - d) / base {
                assert(value * b + d > u128::MAX) by (nonlinear_arith)
                    requires value > (u128::MAX - d) / b, d < b, b >= 2;
                overflow = true;
            } else {
                assert(value * b + d <= u128::MAX) by (nonlinear_arith)
                    requires value <= (u128::MAX - d) / b, d < b, b >= 2;
                value = value * base + d;
            }
            assert(digit_value(c) < b);
        }
        assert forall|j: int| 0 <= j < next_digits.len() implies next_digits[j] == '_' || digit_value(
            #[trigger] next_digits[j],
        ) < b by {
            if j < prev_digits.len() {
                assert(next_digits[j] == prev_digits[j]);
            } else {
                assert(next_digits[j] == c);
            }
        }
        k += 1;
    }
    assert(s.subrange(content_start as int, k as int) == s.subrange(content_start as int, e as int));
    if e < src.length && char_at(src, e) == 'n' {
        let raw = text(src, position, e + 1);
        if overflow || value > i128::MAX as u128 {
            Err(ParseError { kind: ErrorKind::NumericOverflow, lexeme: raw.to_owned(), line, column })
        } else {
            Ok((e + 1, Token::Bigint(raw.to_owned(), system, value as i128)))
        }
    } else if overflow {
        Ok((e, Token::Number(raw.to_owned(), system, None)))
    } else {
        Ok((e, Token::Number(raw.to_owned(), system, Some(value))))
    }
}

// ---- context updates ----

/// `st` is the placeholder declaration recorded for the name `n`.
pub open spec fn is_stub_for(st: Statement, n: NameAt) -> bool {
    &&& st matches Statement::FunctionDeclaration(d)
    &&& st->FunctionDeclaration_0.id.name@ == n.name
    &&& st->FunctionDeclaration_0.id.loc.source is None
    &&& st->FunctionDeclaration_0.id.loc.start.line == n.line
    &&& st->FunctionDeclaration_0.id.loc.start.column == n.start
    &&& st->FunctionDeclaration_0.id.loc.end.line == n.line
    &&& st->FunctionDeclaration_0.id.loc.end.column == n.end
    &&& st->FunctionDeclaration_0.params@.len() == 0
    &&& st->FunctionDeclaration_0.body.body@.len() == 0
}

/// The statements are the placeholders for the names, in order.
pub open spec fn names_recorded(body: Seq<Statement>, names: Seq<NameAt>) -> bool {
    &&& body.len() == names.len()
    &&& forall|i: int| 0 <= i < names.len() ==> is_stub_for(#[trigger] body[i], names[i])
}

pub open spec fn is_empty_function(x: Expression) -> bool {
    &&& x matches Expression::Function(f)
    &&& x->Function_0.params@.len() == 0
    &&& x->Function_0.body.body@.len() == 0
}

/// How a step changes the context: the flag is as the step leaves it; a name
/// appends its placeholder declaration; `function` appends an empty function
/// expression to an open expression list.
pub open spec fn context_after(c0: Context, c1: Context, st: Step) -> bool {
    &&& c1.is_function_identifier == st.function_identifier
    &&& c1.is_directive == c0.is_directive
    &&& c1.is_pattern == c0.is_pattern
    &&& match st.name {
        Some(n) => {
            &&& c1.statements@.len() == c0.statements@.len() + 1
            &&& c1.statements@.drop_last() == c0.statements@
            &&& is_stub_for(c1.statements@.last(), n)
        },
        None => c1.statements == c0.statements,
    }
    &&& if st.token == Some(TokenView::Keyword(Keyword::Function)) {
        match c0.expressions {
            Some(v0) => {
                &&& c1.expressions matches Some(v1)
                &&& c1.expressions->Some_0@.len() == v0@.len() + 1
                &&& c1.expressions->Some_0@.drop_last() == v0@
                &&& is_empty_function(c1.expressions->Some_0@.last())
            },
            None => c1.expressions is None,
        }
    } else {
        c1.expressions == c0.expressions
    }
}

/// A token reader's result and context update agree with the model's step.
pub open spec fn stepped_as(r: Result<(usize, Token), ParseError>, c0: Context, c1: Context, m: Result<Step, ErrorView>) -> bool {
    match m {
        Ok(st) => {
            &&& r matches Ok((e, t))
            &&& r->Ok_0.0 == st.pos
            &&& st.token == Some(r->Ok_0.1@)
            &&& context_after(c0, c1, st)
        },
        Err(err) => r matches Err(x) && x@ == err && c1 == c0,
    }
}

/// Fails while the context expects the name after `function`.
fn validate_token(context: &Context, char: &str, line: usize, column: usize) -> (r: Result<(), ParseError>)
    ensures
        r is Ok <==> !context.is_function_identifier,
        r matches Err(x) ==> x@ == error_at(ErrorKind::UnexpectedToken, char@, line as int, column as int),
{
    if context.is_function_identifier {
        Err(ParseError { kind: ErrorKind::UnexpectedToken, lexeme: char.to_owned(), line, column })
    } else {
        Ok(())
    }
}

fn read_keyword_or_name(
    src: &ReadonlyString,
    context: &mut Context,
    position: usize,
    line: usize,
    column: usize,
) -> (r: Result<(usize, Token), ParseError>)
    requires
        src.wf(),
        position < src@.len(),
        column <= position,
        is_identifier_char(src@[position as int]),
        !is_digit(src@[position as int]),
        !is_whitespace(src@[position as int]),
    ensures
        stepped_as(r, *old(context), *final(context), step(src@, position as int, line as int, column as int, old(context).is_function_identifier)),
        r matches Ok((e, _)) ==> position < e <= src@.len(),
{
    let e = scan_identifier_run(src, position + 1);
    assert(identifier_end(src@, position as int) == identifier_end(src@, position + 1));
    let word = text(src, position, e);
    let end_column = column + (e - position);
    match keyword_by_name(word) {
        None => {
            context.is_function_identifier = false;
            let id = Identifier::new(word.to_owned(), Position::new(line, column), Position::new(line, end_column));
            context.statements.push(Statement::FunctionDeclaration(FunctionDeclaration::new(id)));
            assert(context.statements@.drop_last() =~= old(context).statements@);
            Ok((e, Token::Name(word.to_owned())))
        },
        Some(k) => {
            if context.is_function_identifier {
                return Err(ParseError { kind: ErrorKind::UnexpectedToken, lexeme: word.to_owned(), line, column });
            }
            if k == Keyword::Function {
                let ghost before = context.expressions;
                if let Some(expressions) = &mut context.expressions {
                    expressions.push(Expression::Function(FunctionExpression::new()));
                }
                assert(before is Some ==> context.expressions->Some_0@.drop_last() =~= before->Some_0@);
                context.is_function_identifier = true;
            }
            Ok((e, Token::Keyword(k)))
        },
    }
}

/// A token that starts with an identifier character: a numeric literal, a
/// keyword or a name.
fn read_identifier(
    src: &ReadonlyString,
    context: &mut Context,
    position: usize,
    line: usize,
    column: usize,
) -> (r: Result<(usize, Token), ParseError>)
    requires
        src.wf(),
        src@.len() < usize::MAX,
        position < src@.len(),
        column <= position,
        is_identifier_char(src@[position as int]),
    ensures
        stepped_as(r, *old(context), *final(context), step(src@, position as int, line as int, column as int, old(context).is_function_identifier)),
        r matches Ok((e, _)) ==> position < e <= src@.len(),
{
    let first_char = char_at(src, position);
    if digit_char(first_char) {
        match validate_token(context, text(src, position, position + 1), line, column) {
            Err(x) => Err(x),
            Ok(()) => read_numberic(src, position, line, column),
        }
    } else {
        read_keyword_or_name(src, context, position, line, column)
    }
}

/// Reads the token at `position`, which is not whitespace.
fn read_token(
    src: &ReadonlyString,
    context: &mut Context,
    position: usize,
    line: usize,
    column: usize,
) -> (r: Result<(usize, Token), ParseError>)
    requires
        src.wf(),
        src@.len() < usize::MAX,
        position < src@.len(),
        column <= position,
        line <= position + 1,
        !is_whitespace(src@[position as int]),
    ensures
        stepped_as(r, *old(context), *final(context), step(src@, position as int, line as int, column as int, old(context).is_function_identifier)),
        r matches Ok((e, _)) ==> position < e <= src@.len(),
{
    let c = char_at(src, position);
    if identifier_char(c) {
        return read_identifier(src, context, position, line, column);
    }
    match validate_token(context, text(src, position, position + 1), line, column) {
        Err(x) => {
            return Err(x);
        },
        Ok(()) => {},
    }
    if c == '/' {
        let divide = match find_prev_char_ignore_whitespace(src, position) {
            Some(p) => identifier_char(p) || p == ')' || p == ']',
            None => false,
        };
        if divide {
            read_operator(src, position, line, column)
        } else {
            read_reg_exp(src, position, line, column)
        }
    } else if c == '\'' || c == '"' {
        read_string(src, position, line, column)
    } else if c == '#' {
        let (e, t) = read_private_name(src, position);
        Ok((e, t))
    } else {
        read_operator(src, position, line, column)
    }
}

// ---- whole texts ----

/// The tokens of a text and the program built while reading them.
pub struct Scan {
    pub tokens: Vec<Token>,
    pub program: Program,
}

/// `p` is the program that the scan `m` builds: one placeholder declaration
/// per name, spanning the whole text.
pub open spec fn program_of(p: Program, m: Scanned) -> bool {
    &&& names_recorded(p.body@, m.names)
    &&& p.loc.source is None
    &&& p.loc.start == (Position { line: 1, column: 0 })
    &&& p.loc.end.wf()
    &&& p.loc.end.line == m.line
    &&& p.loc.end.column == m.column
}

/// `r` is what the scan of `s` yields: its tokens and program, or its error.
pub open spec fn scan_of(s: Seq<char>, r: Result<Scan, ParseError>) -> bool {
    match lex(s) {
        Ok(m) => r matches Ok(sc) && token_views(sc.tokens@) == m.tokens && program_of(sc.program, m),
        Err(e) => r matches Err(x) && x@ == e,
    }
}

/// Scans `src` left to right into tokens.
pub fn tokenize(src: &str) -> (r: Result<Scan, ParseError>)
    requires
        src@.len() < usize::MAX,
    ensures
        scan_of(src@, r),
{
    let readonly_string = ReadonlyString::new(src);
    let ghost s = src@;
    let mut position: usize = 0;
    let mut line: usize = 1;
    let mut column: usize = 0;
    let mut tokens: Vec<Token> = Vec::new();
    let mut program = Program::new(line, column);
    let mut context = Context::new(Vec::new());
    let ghost mut names: Seq<NameAt> = Seq::empty();
    assert(token_views(tokens@) =~= Seq::<TokenView>::empty());
    while position < readonly_string.length
        invariant
            readonly_string.wf(),
            readonly_string@ == s,
            s == src@,
            s.len() < usize::MAX,
            position <= s.len(),
            column <= position,
            1 <= line <= position + 1,
            context.expressions is None,
            names_recorded(context.statements@, names),
            program.loc.source is None,
            program.loc.start == (Position { line: 1, column: 0 }),
            run(s, position as int, line as int, column as int, context.is_function_identifier, token_views(tokens@), names) == lex(s),
        decreases s.len() - position,
    {
        let c = char_at(&readonly_string, position);
        if whitespace_char(c) {
            position += 1;
            if line_break_char(c) {
                line += 1;
                column = 0;
            } else {
                column += 1;
            }
        } else {
            let ghost st = step(s, position as int, line as int, column as int, context.is_function_identifier);
            match read_token(&readonly_string, &mut context, position, line, column) {
                Ok((e, t)) => {
                    let ghost old_views = token_views(tokens@);
                    let (l, c) = advance_position(&readonly_string, position, e, line, column);
                    line = l;
                    column = c;
                    position = e;
                    tokens.push(t);
                    assert(token_views(tokens@) =~= old_views.push(t@));
                    proof {
                        let n = st->Ok_0.name;
                        let old_names = names;
                        names = opt_push(names, n);
                        if n is Some {
                            assert forall|i: int| 0 <= i < names.len() implies is_stub_for(
                                #[trigger] context.statements@[i],
                                names[i],
                            ) by {
                                if i < old_names.len() {
                                    assert(context.statements@[i] == context.statements@.drop_last()[i]);
                                }
                            }
                        }
                    }
                },
                Err(err) => {
                    return Err(err);
                },
            }
        }
    }
    program.body = context.statements;
    program.loc.end = Position::new(line, column);
    Ok(Scan { tokens, program })
}

/// Scans `src` and returns the program built while scanning.
pub fn parse(src: &str) -> (r: Result<Program, ParseError>)
    requires
        src@.len() < usize::MAX,
    ensures
        match lex(src@) {
            Ok(m) => r matches Ok(p) && program_of(p, m),
            Err(e) => r matches Err(x) && x@ == e,
        },
{
    match tokenize(src) {
        Ok(scan) => Ok(scan.program),
        Err(e) => Err(e),
    }
}

} // verus!
