use jsfront::error::ErrorKind;
use jsfront::parser::tokenize;
use jsfront::token::{Arithmetic, Assign, Comparation, Keyword, NumberSystem, Punctuator, RegExpModifier, Token};

fn tokens(src: &str) -> Vec<Token> {
    tokenize(src).unwrap().tokens
}

fn error_of(src: &str) -> (ErrorKind, String, usize, usize) {
    let e = tokenize(src).err().unwrap();
    (e.kind, e.lexeme, e.line, e.column)
}

fn name(s: &str) -> Token {
    Token::Name(s.to_string())
}

#[test]
fn decimal_literal_has_its_value() {
    assert_eq!(tokens("1234567"), vec![Token::Number("1234567".to_string(), NumberSystem::Decimal, Some(1234567))]);
    assert_eq!(tokens("0"), vec![Token::Number("0".to_string(), NumberSystem::Decimal, Some(0))]);
    assert_eq!(tokens("42;"), vec![Token::Number("42".to_string(), NumberSystem::Decimal, Some(42)), Token::Punctuator(Punctuator::Semi)]);
}

#[test]
fn radix_prefixes_are_tagged() {
    assert_eq!(tokens("0b101"), vec![Token::Number("0b101".to_string(), NumberSystem::Binary, Some(5))]);
    assert_eq!(tokens("0x19"), vec![Token::Number("0x19".to_string(), NumberSystem::Hex, Some(25))]);
    assert_eq!(tokens("017"), vec![Token::Number("017".to_string(), NumberSystem::Octal, Some(15))]);
    assert_eq!(tokens("0b1_0"), vec![Token::Number("0b1_0".to_string(), NumberSystem::Binary, Some(2))]);
}

#[test]
fn long_binary_literal_keeps_its_tag() {
    let ones = format!("0b{}", "1".repeat(40));
    assert_eq!(tokens(&ones), vec![Token::Number(ones.clone(), NumberSystem::Binary, Some((1u128 << 40) - 1))]);
    let huge = format!("0b{}", "1".repeat(130));
    assert_eq!(tokens(&huge), vec![Token::Number(huge.clone(), NumberSystem::Binary, None)]);
}

#[test]
fn digit_outside_radix_is_malformed() {
    assert_eq!(error_of("09"), (ErrorKind::MalformedNumber, "09".to_string(), 1, 0));
    assert_eq!(error_of("x = 0b102"), (ErrorKind::MalformedNumber, "0b102".to_string(), 1, 4));
}

#[test]
fn hex_letters_are_digits() {
    assert_eq!(tokens("0xff"), vec![Token::Number("0xff".to_string(), NumberSystem::Hex, Some(255))]);
    assert_eq!(tokens("0x1F"), vec![Token::Number("0x1F".to_string(), NumberSystem::Hex, Some(31))]);
    assert_eq!(tokens("0x1g"), vec![Token::Number("0x1".to_string(), NumberSystem::Hex, Some(1)), name("g")]);
    assert_eq!(tokens("0xffn"), vec![Token::Bigint("0xffn".to_string(), NumberSystem::Hex, 255)]);
    assert_eq!(error_of("0x"), (ErrorKind::MalformedNumber, "0x".to_string(), 1, 0));
}

#[test]
fn separator_is_skipped_in_value() {
    assert_eq!(tokens("1_000"), vec![Token::Number("1_000".to_string(), NumberSystem::Decimal, Some(1000))]);
}

#[test]
fn repeated_separator_is_rejected() {
    assert_eq!(error_of("1__0"), (ErrorKind::RepeatedSeparator, "_".to_string(), 1, 2));
}

#[test]
fn leading_separator_is_rejected() {
    assert_eq!(error_of("0b_1"), (ErrorKind::LeadingSeparator, "_".to_string(), 1, 2));
    assert_eq!(error_of("x = 0x_1"), (ErrorKind::LeadingSeparator, "_".to_string(), 1, 6));
}

#[test]
fn underscore_start_is_a_name() {
    assert_eq!(tokens("_1"), vec![name("_1")]);
}

#[test]
fn bigint_suffix_is_one_token() {
    assert_eq!(tokens("123n"), vec![Token::Bigint("123n".to_string(), NumberSystem::Decimal, 123)]);
    assert_eq!(tokens("0x10n"), vec![Token::Bigint("0x10n".to_string(), NumberSystem::Hex, 16)]);
}

#[test]
fn numeric_limits() {
    assert_eq!(
        tokens("340282366920938463463374607431768211455"),
        vec![Token::Number("340282366920938463463374607431768211455".to_string(), NumberSystem::Decimal, Some(u128::MAX))]
    );
    assert_eq!(
        tokens("340282366920938463463374607431768211456"),
        vec![Token::Number("340282366920938463463374607431768211456".to_string(), NumberSystem::Decimal, None)]
    );
    assert_eq!(
        tokens("170141183460469231731687303715884105727n"),
        vec![Token::Bigint("170141183460469231731687303715884105727n".to_string(), NumberSystem::Decimal, i128::MAX)]
    );
    assert_eq!(error_of("170141183460469231731687303715884105728n").0, ErrorKind::NumericOverflow);
}

#[test]
fn slash_after_name_divides() {
    assert_eq!(tokens("a / b"), vec![name("a"), Token::Arithmetic(Arithmetic::Divide), name("b")]);
    assert_eq!(
        tokens("(a) / 2"),
        vec![
            Token::Punctuator(Punctuator::ParenL),
            name("a"),
            Token::Punctuator(Punctuator::ParenR),
            Token::Arithmetic(Arithmetic::Divide),
            Token::Number("2".to_string(), NumberSystem::Decimal, Some(2)),
        ]
    );
    assert_eq!(tokens("a /= b"), vec![name("a"), Token::Assign(Assign::Division), name("b")]);
}

#[test]
fn slash_at_start_opens_regexp() {
    assert_eq!(tokens("/ab/i"), vec![Token::RegExp("/ab/i".to_string(), "ab".to_string(), Some(RegExpModifier::I))]);
    assert_eq!(
        tokens("x = /a\\/b/g"),
        vec![
            name("x"),
            Token::Assign(Assign::Normal),
            Token::RegExp("/a\\/b/g".to_string(), "a\\/b".to_string(), Some(RegExpModifier::G)),
        ]
    );
    assert_eq!(
        tokens("(/x/)"),
        vec![
            Token::Punctuator(Punctuator::ParenL),
            Token::RegExp("/x/".to_string(), "x".to_string(), None),
            Token::Punctuator(Punctuator::ParenR),
        ]
    );
}

#[test]
fn slash_after_keyword_divides() {
    // the lookback sees the keyword's last letter, an identifier character
    assert_eq!(
        tokens("return /x/"),
        vec![Token::Keyword(Keyword::Return), Token::Arithmetic(Arithmetic::Divide), name("x"), Token::Arithmetic(Arithmetic::Divide)]
    );
}

#[test]
fn unterminated_regexp_is_rejected() {
    assert_eq!(error_of("/ab"), (ErrorKind::UnterminatedRegExp, "".to_string(), 1, 3));
    assert_eq!(error_of("/a\nb/"), (ErrorKind::UnterminatedRegExp, "\n".to_string(), 1, 2));
}

#[test]
fn escaped_quote_stays_in_string() {
    assert_eq!(tokens("\"a\\\"b\""), vec![Token::String("\"a\\\"b\"".to_string(), "a\\\"b".to_string())]);
    assert_eq!(tokens("'it''s'"), vec![Token::String("'it'".to_string(), "it".to_string()), Token::String("'s'".to_string(), "s".to_string())]);
}

#[test]
fn escaped_line_break_stays_in_string() {
    assert_eq!(tokens("'a\\\nb'"), vec![Token::String("'a\\\nb'".to_string(), "a\\\nb".to_string())]);
}

#[test]
fn line_break_inside_string_moves_position() {
    assert_eq!(error_of("'a\\\nb' @"), (ErrorKind::UnexpectedCharacter, "@".to_string(), 2, 3));
    assert_eq!(error_of("'a\\\nb"), (ErrorKind::UnterminatedString, "".to_string(), 2, 1));
    let scan = tokenize("/a\\\n/\nx").unwrap();
    assert_eq!(scan.program.loc.end.line, 3);
    assert_eq!(scan.program.loc.end.column, 1);
}

#[test]
fn unterminated_string_is_rejected() {
    assert_eq!(error_of("\"unterminated"), (ErrorKind::UnterminatedString, "".to_string(), 1, 13));
    assert_eq!(error_of("'ab\n'"), (ErrorKind::UnterminatedString, "\n".to_string(), 1, 3));
}

#[test]
fn private_name_content() {
    assert_eq!(tokens("#foo123"), vec![Token::PrivateName("#foo123".to_string(), "foo123".to_string())]);
}

#[test]
fn bare_hash_is_empty_private_name() {
    assert_eq!(tokens("# x"), vec![Token::PrivateName("#".to_string(), "".to_string()), name("x")]);
}

#[test]
fn function_then_name() {
    assert_eq!(
        tokens("function foo(a, b) { return a + b }"),
        vec![
            Token::Keyword(Keyword::Function),
            name("foo"),
            Token::Punctuator(Punctuator::ParenL),
            name("a"),
            Token::Punctuator(Punctuator::Comma),
            name("b"),
            Token::Punctuator(Punctuator::ParenR),
            Token::Punctuator(Punctuator::BraceL),
            Token::Keyword(Keyword::Return),
            name("a"),
            Token::Arithmetic(Arithmetic::Plus),
            name("b"),
            Token::Punctuator(Punctuator::BraceR),
        ]
    );
}

#[test]
fn function_then_other_token_is_rejected() {
    assert_eq!(error_of("function (a)"), (ErrorKind::UnexpectedToken, "(".to_string(), 1, 9));
    assert_eq!(error_of("function return"), (ErrorKind::UnexpectedToken, "return".to_string(), 1, 9));
    assert_eq!(error_of("function 1"), (ErrorKind::UnexpectedToken, "1".to_string(), 1, 9));
    assert_eq!(error_of("function\n  'x'"), (ErrorKind::UnexpectedToken, "'".to_string(), 2, 2));
}

#[test]
fn rescanning_gives_same_tokens() {
    let src = "let x = /re/g; x ??= 0b11 + 'q' ? #p : y;";
    let first = tokenize(src).unwrap();
    let second = tokenize(src).unwrap();
    assert_eq!(first.tokens, second.tokens);
    assert_eq!(first.program.body.len(), second.program.body.len());
}

#[test]
fn end_to_end_program() {
    let scan = tokenize("function plus(a, b) {\n  return a + b\n}\n").unwrap();
    assert_eq!(
        scan.tokens,
        vec![
            Token::Keyword(Keyword::Function),
            name("plus"),
            Token::Punctuator(Punctuator::ParenL),
            name("a"),
            Token::Punctuator(Punctuator::Comma),
            name("b"),
            Token::Punctuator(Punctuator::ParenR),
            Token::Punctuator(Punctuator::BraceL),
            Token::Keyword(Keyword::Return),
            name("a"),
            Token::Arithmetic(Arithmetic::Plus),
            name("b"),
            Token::Punctuator(Punctuator::BraceR),
        ]
    );
    assert_eq!(scan.program.loc.end.line, 4);
    assert_eq!(scan.program.loc.end.column, 0);
}

#[test]
fn longest_operator_match() {
    assert_eq!(
        tokens("a === b !== c == d"),
        vec![
            name("a"),
            Token::Comparation(Comparation::TripleE),
            name("b"),
            Token::Comparation(Comparation::TripleNE),
            name("c"),
            Token::Comparation(Comparation::DoubleE),
            name("d"),
        ]
    );
    assert_eq!(tokens("??="), vec![Token::Assign(Assign::NullishCoalescing)]);
    assert_eq!(tokens("a?.b"), vec![name("a"), Token::Punctuator(Punctuator::QuestionDot), name("b")]);
    assert_eq!(tokens("=>"), vec![Token::Punctuator(Punctuator::Arrow)]);
    assert_eq!(tokens("i++"), vec![name("i"), Token::Punctuator(Punctuator::Increment)]);
}

#[test]
fn unexpected_character_is_rejected() {
    assert_eq!(error_of("a\n  @"), (ErrorKind::UnexpectedCharacter, "@".to_string(), 2, 2));
}

#[test]
fn empty_and_blank_input() {
    assert_eq!(tokens(""), vec![]);
    let scan = tokenize(" \t\r\n ").unwrap();
    assert!(scan.tokens.is_empty());
    assert_eq!(scan.program.loc.end.line, 3);
    assert_eq!(scan.program.loc.end.column, 1);
}

#[test]
fn unicode_whitespace_separates() {
    assert_eq!(tokens("a\u{a0}b\u{3000}c"), vec![name("a"), name("b"), name("c")]);
}

#[test]
fn keywords_are_recognized() {
    assert_eq!(
        tokens("var let const typeof instanceof undefined in of"),
        vec![
            Token::Keyword(Keyword::Var),
            Token::Keyword(Keyword::Let),
            Token::Keyword(Keyword::Const),
            Token::Keyword(Keyword::Typeof),
            Token::Keyword(Keyword::Instanceof),
            Token::Keyword(Keyword::Undefined),
            Token::Keyword(Keyword::In),
            Token::Keyword(Keyword::Of),
        ]
    );
    assert_eq!(tokens("variable"), vec![name("variable")]);
}

#[test]
fn error_message_names_position() {
    let e = tokenize("a @").err().unwrap();
    let m = e.message();
    assert!(m.contains("'@'"));
    assert!(m.contains("line:1"));
    assert!(m.contains("column:2"));
}
