use vstd::prelude::*;
use crate::error::{ErrorKind, ErrorView, ParseError};
use crate::model::{
    digit_value, digits_end, digits_value, identifier_end, is_run_digit, radix_value, is_digit, is_identifier_char, is_line_break, quoted_end, is_quote, is_whitespace, lex, number_token, opt_push, private_name_token,
    radix_of, run, step, string_token, NameAt, Scanned,
};
use crate::parser::{scan_of, Scan};
use crate::token::{token_views, NumberSystem, TokenView};

verus! {

proof fn lemma_all_digits_end(s: Seq<char>, i: int, sep: bool, sys: NumberSystem)
    requires
        0 <= i <= s.len(),
        forall|j: int| i <= j < s.len() ==> is_run_digit(#[trigger] s[j], sys),
    ensures
        digits_end(s, i, sep, sys) == Ok::<int, int>(s.len() as int),
    decreases s.len() - i,
{
    if i < s.len() {
        lemma_all_digits_end(s, i + 1, false, sys);
    }
}

/// A successful scan keeps what was emitted before it as a prefix.
proof fn lemma_run_extends(
    s: Seq<char>,
    pos: int,
    line: int,
    col: int,
    fid: bool,
    tokens: Seq<TokenView>,
    names: Seq<NameAt>,
)
    requires
        run(s, pos, line, col, fid, tokens, names) is Ok,
    ensures
        tokens.len() <= run(s, pos, line, col, fid, tokens, names)->Ok_0.tokens.len(),
        tokens == run(s, pos, line, col, fid, tokens, names)->Ok_0.tokens.subrange(0, tokens.len() as int),
    decreases s.len() - pos,
{
    let r = run(s, pos, line, col, fid, tokens, names);
    if 0 <= pos < s.len() {
        let st = step(s, pos, line, col, fid)->Ok_0;
        if pos < st.pos <= s.len() {
            let t2 = opt_push(tokens, st.token);
            lemma_run_extends(s, st.pos, st.line, st.column, st.function_identifier, t2, opt_push(names, st.name));
            assert(tokens =~= t2.subrange(0, tokens.len() as int));
            assert(r->Ok_0.tokens.subrange(0, tokens.len() as int) =~= r->Ok_0.tokens.subrange(0, t2.len() as int).subrange(0, tokens.len() as int));
        } else {
            assert(tokens =~= tokens.subrange(0, tokens.len() as int));
        }
    } else {
        assert(tokens =~= tokens.subrange(0, tokens.len() as int));
    }
}

/// A whole text that is a numeric literal without separators or suffix,
/// whose digits from `p` on belong to radix `sys`, scans as that one token.
proof fn lemma_single_number(s: Seq<char>, sys: NumberSystem, p: int)
    requires
        0 <= p < s.len(),
        is_digit(s[0]),
        radix_of(s, 0) == (sys, p),
        forall|j: int| p <= j < s.len() ==> is_run_digit(#[trigger] s[j], sys) && digit_value(s[j]) < radix_value(sys),
    ensures
        lex(s) is Ok,
        lex(s)->Ok_0.tokens == seq![TokenView::Number(s, sys, {
            let v = digits_value(s.subrange(p, s.len() as int), radix_value(sys));
            if v <= u128::MAX { Some(v) } else { None }
        })],
        lex(s)->Ok_0.names.len() == 0,
{
    lemma_all_digits_end(s, p, false, sys);
    let d = s.subrange(p, s.len() as int);
    assert forall|j: int| 0 <= j < d.len() implies d[j] == '_' || digit_value(#[trigger] d[j]) < radix_value(sys) by {
        assert(d[j] == s[p + j]);
    }
    assert(s.subrange(0, s.len() as int) =~= s);
    let v = digits_value(d, radix_value(sys));
    let t = TokenView::Number(s, sys, if v <= u128::MAX { Some(v) } else { None });
    assert(is_run_digit(s[p], sys));
    assert(number_token(s, 0, 1, 0) == Ok::<(int, TokenView), ErrorView>((s.len() as int, t)));
    assert(!is_whitespace(s[0]));
    let st = step(s, 0, 1, 0, false)->Ok_0;
    assert(st.pos == s.len());
    let t1 = opt_push(Seq::<TokenView>::empty(), st.token);
    let n1 = opt_push(Seq::<NameAt>::empty(), st.name);
    assert(t1 =~= seq![t]);
    assert(n1 =~= Seq::<NameAt>::empty());
    assert(run(s, st.pos, st.line, st.column, st.function_identifier, t1, n1) == Ok::<Scanned, ErrorView>(
        Scanned { tokens: t1, names: n1, line: st.line, column: st.column },
    ));
}

/// A text of decimal digits that does not start with `0` (or is `0`) scans
/// as one numeric token whose value is the decimal value of the text, or
/// `None` where that value exceeds `u128::MAX`.
pub proof fn lemma_decimal_literal(s: Seq<char>)
    requires
        s.len() > 0,
        forall|i: int| 0 <= i < s.len() ==> is_digit(#[trigger] s[i]),
        s[0] != '0' || s.len() == 1,
    ensures
        lex(s) is Ok,
        lex(s)->Ok_0.tokens == seq![TokenView::Number(s, NumberSystem::Decimal, {
            let v = digits_value(s, 10);
            if v <= u128::MAX { Some(v) } else { None }
        })],
{
    assert(s.subrange(0, s.len() as int) =~= s);
    assert(radix_of(s, 0) == (NumberSystem::Decimal, 0int));
    lemma_single_number(s, NumberSystem::Decimal, 0);
}

/// The radix tag of a literal follows its prefix, whatever its value: `0b`,
/// `0x`, or `0`, followed by a nonempty run of digits of that radix, scans as
/// one numeric token tagged binary, hexadecimal or octal.
pub proof fn lemma_radix_tag(s: Seq<char>, sys: NumberSystem)
    requires
        sys != NumberSystem::Decimal,
        s.len() > (if sys == NumberSystem::Octal { 1int } else { 2int }),
        s[0] == '0',
        sys == NumberSystem::Binary ==> s[1] == 'b',
        sys == NumberSystem::Hex ==> s[1] == 'x',
        forall|j: int|
            (if sys == NumberSystem::Octal { 1int } else { 2int }) <= j < s.len() ==> is_run_digit(#[trigger] s[j], sys)
                && digit_value(s[j]) < radix_value(sys),
    ensures
        lex(s) is Ok,
        lex(s)->Ok_0.tokens.len() == 1,
        lex(s)->Ok_0.tokens[0] matches TokenView::Number(raw, n, _) && raw == s && n == sys,
{
    let p = if sys == NumberSystem::Octal { 1int } else { 2int };
    assert(is_run_digit(s[p], sys));
    assert(radix_of(s, 0) == (sys, p));
    lemma_single_number(s, sys, p);
}


/// Right after `function`, a token that is not a name is an error; a name
/// is accepted and clears the expectation.
pub proof fn lemma_function_expects_name(s: Seq<char>, pos: int, line: int, col: int)
    requires
        0 <= pos < s.len(),
        !is_whitespace(s[pos]),
    ensures
        match step(s, pos, line, col, true) {
            Ok(st) => st.token matches Some(TokenView::Name(_)) && !st.function_identifier,
            Err(e) => e.kind == ErrorKind::UnexpectedToken,
        },
{
}

/// A string token's raw text is its content between the two quotes, and the
/// content holds the text as written, escapes included.
pub proof fn lemma_string_raw_is_quoted_content(s: Seq<char>, pos: int, line: int, col: int)
    requires
        0 <= pos < s.len(),
        is_quote(s[pos]),
        string_token(s, pos, line, col) is Ok,
    ensures
        string_token(s, pos, line, col)->Ok_0.1 matches TokenView::String(raw, content)
            && raw == seq![s[pos]] + content + seq![s[pos]],
{
    lemma_quoted_end_ge(s, pos + 1, s[pos], false);
    let (e, t) = string_token(s, pos, line, col)->Ok_0;
    assert(t->String_0 =~= seq![s[pos]] + t->String_1 + seq![s[pos]]);
}

/// A private name's raw text is `#` followed by its content.
pub proof fn lemma_private_name_raw(s: Seq<char>, pos: int)
    requires
        0 <= pos < s.len(),
        s[pos] == '#',
    ensures
        private_name_token(s, pos).1 matches TokenView::PrivateName(raw, content) && raw == seq!['#'] + content,
{
    lemma_identifier_end_ge(s, pos + 1);
    let t = private_name_token(s, pos).1;
    assert(t->PrivateName_0 =~= seq!['#'] + t->PrivateName_1);
}

proof fn lemma_quoted_end_ge(s: Seq<char>, i: int, close: char, esc: bool)
    requires
        0 <= i <= s.len(),
    ensures
        i <= quoted_end(s, i, close, esc) <= s.len(),
    decreases s.len() - i,
{
    if i < s.len() && (esc || (s[i] != close && !is_line_break(s[i]))) {
        lemma_quoted_end_ge(s, i + 1, close, !esc && s[i] == '\\');
    }
}

proof fn lemma_identifier_end_ge(s: Seq<char>, i: int)
    requires
        0 <= i <= s.len(),
    ensures
        i <= identifier_end(s, i) <= s.len(),
    decreases s.len() - i,
{
    if i < s.len() && is_identifier_char(s[i]) {
        lemma_identifier_end_ge(s, i + 1);
    }
}

/// Scanning is a function of the text: any two results that the scan's
/// contract admits for one text have the same tokens, program names and
/// error.
pub proof fn lemma_scan_is_deterministic(s: Seq<char>, r1: Result<Scan, ParseError>, r2: Result<Scan, ParseError>)
    requires
        scan_of(s, r1),
        scan_of(s, r2),
    ensures
        r1 is Ok <==> r2 is Ok,
        r1 is Ok ==> token_views(r1->Ok_0.tokens@) == token_views(r2->Ok_0.tokens@),
        r1 is Err ==> r1->Err_0@ == r2->Err_0@,
{
}

} // verus!
