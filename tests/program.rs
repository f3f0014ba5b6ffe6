use jsfront::context::Context;
use jsfront::node::{
    Declaration, Expression, FunctionDeclaration, FunctionExpression, Identifier, MemberExpression, Pattern, Position,
    Program, SourceLocation, Statement, ThisExpression,
};
use jsfront::parser::parse;
use jsfront::string::{IndexError, ReadonlyString};

#[test]
fn names_become_placeholder_declarations() {
    let program = parse("function plus(a, b) {\n  return a + b\n}\n").unwrap();
    let names: Vec<String> = program
        .body
        .iter()
        .map(|s| match s {
            Statement::FunctionDeclaration(d) => d.id.name.clone(),
            _ => panic!("not a declaration"),
        })
        .collect();
    assert_eq!(names, vec!["plus", "a", "b", "a", "b"]);
    match &program.body[0] {
        Statement::FunctionDeclaration(d) => {
            assert_eq!(d.id.loc.start, Position::new(1, 9));
            assert_eq!(d.id.loc.end, Position::new(1, 13));
            assert_eq!(d.id.loc.source, None);
            assert!(d.params.is_empty());
            assert!(d.body.body.is_empty());
        }
        _ => panic!("not a declaration"),
    }
    match &program.body[3] {
        Statement::FunctionDeclaration(d) => {
            assert_eq!(d.id.loc.start, Position::new(2, 9));
            assert_eq!(d.id.loc.end, Position::new(2, 10));
        }
        _ => panic!("not a declaration"),
    }
    assert_eq!(program.loc.start, Position::new(1, 0));
    assert_eq!(program.loc.end, Position::new(4, 0));
}

#[test]
fn parse_reports_error() {
    let e = parse("function 'x'").err().unwrap();
    assert_eq!(e.line, 1);
    assert_eq!(e.column, 9);
}

#[test]
fn new_program_is_empty() {
    let p = Program::new(1, 0);
    assert!(p.body.is_empty());
    assert_eq!(p.loc, SourceLocation::new(1, 0));
    assert_eq!(p.loc.end, Position::new(1, 0));
}

#[test]
fn context_starts_clear() {
    let c = Context::new(Vec::new());
    assert!(!c.is_function_identifier);
    assert!(!c.is_directive);
    assert!(!c.is_pattern);
    assert!(c.statements.is_empty());
    assert!(c.expressions.is_none());
}

#[test]
fn capability_conversions() {
    let id = Identifier::new("x".to_string(), Position::new(1, 0), Position::new(1, 1));
    match Pattern::Identifier(id.clone()).into_expression() {
        Expression::Identifier(i) => assert_eq!(i, id),
        _ => panic!("wrong kind"),
    }
    assert!(matches!(Expression::Identifier(id.clone()).into_pattern(), Some(Pattern::Identifier(_))));
    assert!(Expression::This(ThisExpression).into_pattern().is_none());
    assert!(Expression::Function(FunctionExpression::new()).into_pattern().is_none());
    let member = MemberExpression {
        object: Box::new(Expression::Identifier(id.clone())),
        property: Box::new(Expression::This(ThisExpression)),
        computed: true,
    };
    assert!(matches!(Expression::Member(member).into_pattern(), Some(Pattern::Member(_))));
    let decl = FunctionDeclaration::new(id.clone());
    match Declaration::Function(decl).into_statement() {
        Statement::FunctionDeclaration(d) => assert_eq!(d.id.name, "x"),
        _ => panic!("wrong kind"),
    }
}

#[test]
fn buffer_counts_codepoints() {
    let b = ReadonlyString::new("héllo🚀");
    assert_eq!(b.length, 6);
    assert_eq!(b.slice(1, 3), Ok("él"));
    assert_eq!(b.slice(5, 6), Ok("🚀"));
    assert_eq!(b.slice(3, 100), Ok("lo🚀"));
    assert_eq!(b.slice(7, 9), Ok(""));
    assert_eq!(b.slice(3, 1), Err(IndexError { begin: 3, end: 1 }));
}
