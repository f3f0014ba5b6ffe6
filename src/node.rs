use vstd::prelude::*;
use crate::token::RegExpModifier;

verus! {

/// A point in the source: `line` counts from 1, `column` from 0.
#[derive(Debug, Clone, Copy, PartialEq, Eq, Structural)]
pub struct Position {
    pub line: usize,
    pub column: usize,
}

impl Position {
    pub open spec fn wf(&self) -> bool {
        self.line >= 1
    }

    pub fn new(line: usize, column: usize) -> (r: Self)
        ensures
            r.line == line,
            r.column == column,
    {
        Position { line, column }
    }
}

/// The span of a node. `source` is an optional label; `end` equals `start`
/// until the node is closed.
#[derive(Debug, Clone, PartialEq, Eq)]
pub struct SourceLocation {
    pub source: Option<String>,
    pub start: Position,
    pub end: Position,
}

impl SourceLocation {
    /// A location opened at `(line, column)`, with no label.
    pub fn new(line: usize, column: usize) -> (r: Self)
        ensures
            r.source is None,
            r.start == (Position { line, column }),
            r.end == r.start,
    {
        SourceLocation { source: None, start: Position::new(line, column), end: Position::new(line, column) }
    }
}

#[derive(Debug, Clone, PartialEq, Eq)]
pub struct Identifier {
    pub loc: SourceLocation,
    pub name: String,
}

impl Identifier {
    pub fn new(name: String, start: Position, end: Position) -> (r: Self)
        ensures
            r.name@ == name@,
            r.loc.source is None,
            r.loc.start == start,
            r.loc.end == end,
    {
        Identifier { loc: SourceLocation { source: None, start, end }, name }
    }
}

/// A regular expression literal held as its pattern text and modifier.
#[derive(Debug, Clone, PartialEq, Eq)]
pub struct RegExpLiteral {
    pub pattern: String,
    pub modifier: Option<RegExpModifier>,
}

pub struct Null;

pub enum LiteralValue {
    String(String),
    Boolean(bool),
    Null(Null),
    Number(u128),
    Bigint(i128),
    RegExp(RegExpLiteral),
}

pub struct Literal {
    pub loc: SourceLocation,
    pub value: LiteralValue,
}

/// The root node: the top-level statements in order.
pub struct Program {
    pub loc: SourceLocation,
    pub body: Vec<Statement>,
}

impl Program {
    pub fn new(line: usize, column: usize) -> (r: Self)
        ensures
            r.loc.source is None,
            r.loc.start == (Position { line, column }),
            r.loc.end == r.loc.start,
            r.body@.len() == 0,
    {
        Program { loc: SourceLocation::new(line, column), body: Vec::new() }
    }
}

/// The statement kinds.
pub enum Statement {
    Expression(ExpressionStatement),
    Directive(Directive),
    Block(BlockStatement),
    FunctionBody(FunctionBody),
    Empty(EmptyStatement),
    Debugger(DebuggerStatement),
    With(WithStatement),
    Return(ReturnStatement),
    Labeled(LabeledStatement),
    Break(BreakStatement),
    Continue(ContinueStatement),
    If(IfStatement),
    Switch(SwitchStatement),
    Throw(ThrowStatement),
    Try(TryStatement),
    While(WhileStatement),
    DoWhile(DoWhileStatement),
    For(ForStatement),
    ForIn(ForInStatement),
    FunctionDeclaration(FunctionDeclaration),
    VariableDeclaration(VariableDeclaration),
}

/// The expression kinds.
pub enum Expression {
    Identifier(Identifier),
    Literal(Literal),
    This(ThisExpression),
    Array(ArrayExpression),
    Object(ObjectExpression),
    Function(FunctionExpression),
    Unary(UnaryExpression),
    Update(UpdateExpression),
    Binary(BinaryExpression),
    Assignment(AssignmentExpression),
    Logical(LogicalExpression),
    Member(MemberExpression),
    Conditional(ConditionalExpression),
    Call(CallExpression),
    New(NewExpression),
    Sequence(SequenceExpression),
}

/// The kinds that may stand as an assignment or binding target.
pub enum Pattern {
    Identifier(Identifier),
    Member(MemberExpression),
}

/// The kinds that declare a name.
pub enum Declaration {
    Function(FunctionDeclaration),
    Variable(VariableDeclaration),
}

impl Pattern {
    /// Every pattern kind is also an expression kind.
    pub fn into_expression(self) -> (r: Expression)
        ensures
            self matches Pattern::Identifier(i) ==> r == Expression::Identifier(i),
            self matches Pattern::Member(m) ==> r == Expression::Member(m),
    {
        match self {
            Pattern::Identifier(i) => Expression::Identifier(i),
            Pattern::Member(m) => Expression::Member(m),
        }
    }
}

impl Expression {
    /// The pattern that this expression also is, if its kind is one.
    pub fn into_pattern(self) -> (r: Option<Pattern>)
        ensures
            self matches Expression::Identifier(i) ==> r == Some(Pattern::Identifier(i)),
            self matches Expression::Member(m) ==> r == Some(Pattern::Member(m)),
            !(self is Identifier || self is Member) ==> r is None,
    {
        match self {
            Expression::Identifier(i) => Some(Pattern::Identifier(i)),
            Expression::Member(m) => Some(Pattern::Member(m)),
            _ => None,
        }
    }
}

impl Declaration {
    /// Every declaration kind is also a statement kind.
    pub fn into_statement(self) -> (r: Statement)
        ensures
            self matches Declaration::Function(f) ==> r == Statement::FunctionDeclaration(f),
            self matches Declaration::Variable(v) ==> r == Statement::VariableDeclaration(v),
    {
        match self {
            Declaration::Function(f) => Statement::FunctionDeclaration(f),
            Declaration::Variable(v) => Statement::VariableDeclaration(v),
        }
    }
}

pub struct ExpressionStatement {
    pub loc: SourceLocation,
    pub expression: Box<Expression>,
    pub directive: Option<String>,
}

/// An expression statement of a string literal in a directive prologue.
pub struct Directive {
    pub loc: SourceLocation,
    pub expression: Literal,
    pub directive: String,
}

pub struct BlockStatement {
    pub loc: SourceLocation,
    pub body: Vec<Statement>,
}

/// A block that may also hold directives.
pub struct FunctionBody {
    pub body: Vec<Statement>,
}

impl FunctionBody {
    pub fn new() -> (r: Self)
        ensures
            r.body@.len() == 0,
    {
        FunctionBody { body: Vec::new() }
    }
}

pub struct EmptyStatement;

pub struct DebuggerStatement;

pub struct WithStatement {
    pub object: Box<Expression>,
    pub body: Box<Statement>,
}

pub struct ReturnStatement {
    pub argument: Option<Box<Expression>>,
}

pub struct LabeledStatement {
    pub label: Identifier,
    pub body: Box<Statement>,
}

pub struct BreakStatement {
    pub label: Option<Identifier>,
}

pub struct ContinueStatement {
    pub label: Option<Identifier>,
}

pub struct IfStatement {
    pub test: Box<Expression>,
    pub consequent: Box<Statement>,
    pub alternate: Option<Box<Statement>>,
}

pub struct SwitchStatement {
    pub discriminant: Box<Expression>,
    pub cases: Vec<SwitchCase>,
}

pub struct SwitchCase {
    pub test: Option<Box<Expression>>,
    pub consequent: Vec<Statement>,
}

pub struct ThrowStatement {
    pub argument: Box<Expression>,
}

pub struct TryStatement {
    pub block: BlockStatement,
    pub handler: Option<CatchClause>,
    pub finalizer: Option<BlockStatement>,
}

pub struct CatchClause {
    pub param: Box<Pattern>,
    pub body: BlockStatement,
}

pub struct WhileStatement {
    pub test: Box<Expression>,
    pub body: Box<Statement>,
}

pub struct DoWhileStatement {
    pub body: Box<Statement>,
    pub test: Box<Expression>,
}

pub enum ForStatementInit {
    VariableDeclaration(VariableDeclaration),
    Expression(Box<Expression>),
}

pub struct ForStatement {
    pub init: Option<ForStatementInit>,
    pub test: Option<Box<Expression>>,
    pub update: Option<Box<Expression>>,
    pub body: Box<Statement>,
}

pub enum ForInStatementLeft {
    VariableDeclaration(VariableDeclaration),
    Expression(Box<Expression>),
}

pub struct ForInStatement {
    pub left: ForInStatementLeft,
    pub right: Box<Expression>,
    pub body: Box<Statement>,
}

pub struct FunctionDeclaration {
    pub id: Identifier,
    pub params: Vec<Pattern>,
    pub body: FunctionBody,
}

impl FunctionDeclaration {
    /// A declaration of `id` with no parameters and an empty body.
    pub fn new(id: Identifier) -> (r: Self)
        ensures
            r.id == id,
            r.params@.len() == 0,
            r.body.body@.len() == 0,
    {
        FunctionDeclaration { id, params: Vec::new(), body: FunctionBody::new() }
    }
}

pub enum VariableKind {
    Var,
    Let,
    Const,
}

pub struct VariableDeclaration {
    pub declarations: Vec<VariableDeclarator>,
    pub kind: VariableKind,
}

pub struct VariableDeclarator {
    pub id: Box<Pattern>,
    pub init: Option<Box<Expression>>,
}

pub struct ThisExpression;

/// Elements may be holes.
pub struct ArrayExpression {
    pub elements: Vec<Option<Box<Expression>>>,
}

pub struct ObjectExpression {
    pub properties: Vec<Property>,
}

pub enum PropertyKey {
    Literal(Literal),
    Identifier(Identifier),
}

pub enum PropertyKind {
    Init,
    Getter,
    Setter,
}

pub struct Property {
    pub key: PropertyKey,
    pub value: Box<Expression>,
    pub kind: PropertyKind,
}

pub struct FunctionExpression {
    pub params: Vec<Pattern>,
    pub body: FunctionBody,
}

impl FunctionExpression {
    /// An anonymous function with no parameters and an empty body.
    pub fn new() -> (r: Self)
        ensures
            r.params@.len() == 0,
            r.body.body@.len() == 0,
    {
        FunctionExpression { params: Vec::new(), body: FunctionBody::new() }
    }
}

pub enum UnaryOperator {
    Positive,
    Negative,
    LogicalInversion,
    BitwiseInversion,
    Typeof,
    Void,
    Delete,
}

pub struct UnaryExpression {
    pub operator: UnaryOperator,
    pub prefix: bool,
    pub argument: Box<Expression>,
}

pub enum UpdateOperator {
    Increment,
    Decrement,
}

pub struct UpdateExpression {
    pub operator: UpdateOperator,
    pub prefix: bool,
    pub argument: Box<Expression>,
}

pub enum BinaryOperator {
    DoubleE,
    DoubleNE,
    TripleE,
    TripleNE,
    LT,
    LTE,
    GT,
    GTE,
    LeftShift,
    RightShift,
    URightShift,
    Plus,
    Minus,
    Multiple,
    Divide,
    Modulo,
    BitwiseOR,
    BitwiseXOR,
    BitwiseAND,
    In,
    Instanceof,
}

pub struct BinaryExpression {
    pub operator: BinaryOperator,
    pub left: Box<Expression>,
    pub right: Box<Expression>,
}

pub enum AssignmentOperator {
    Normal,
    Addition,
    Subtraction,
    Multiplication,
    Division,
    NullishCoalescing,
}

pub enum AssignmentExpressionLeft {
    Pattern(Box<Pattern>),
    Expression(Box<Expression>),
}

pub struct AssignmentExpression {
    pub operator: AssignmentOperator,
    pub left: AssignmentExpressionLeft,
    pub right: Box<Expression>,
}

pub enum LogicalOperator {
    LogicalOR,
    LogicalAND,
}

pub struct LogicalExpression {
    pub operator: LogicalOperator,
    pub left: Box<Expression>,
    pub right: Box<Expression>,
}

/// `object.property`, or `object[property]` when `computed`.
pub struct MemberExpression {
    pub object: Box<Expression>,
    pub property: Box<Expression>,
    pub computed: bool,
}

pub struct ConditionalExpression {
    pub test: Box<Expression>,
    pub alternate: Box<Expression>,
    pub consequent: Box<Expression>,
}

pub struct CallExpression {
    pub callee: Box<Expression>,
    pub arguments: Vec<Expression>,
}

pub struct NewExpression {
    pub callee: Box<Expression>,
    pub arguments: Vec<Expression>,
}

pub struct SequenceExpression {
    pub expressions: Vec<Expression>,
}

} // verus!
