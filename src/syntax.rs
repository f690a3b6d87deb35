use vstd::prelude::*;

verus! {

/// The flavour of a function body: every flavour is walked the same way.
#[derive(Clone, Copy, Debug, PartialEq, Eq)]
pub enum FunctionKind {
    Plain,
    Async,
    Generator,
    AsyncGenerator,
    Arrow,
    AsyncArrow,
}

/// An expression node of a parsed script.
#[derive(Debug)]
pub enum Expression {
    /// A string literal, holding its value.
    StringLiteral(String),
    /// Any other literal: number, big integer, boolean, `null`, `undefined`.
    OtherLiteral,
    Identifier(String),
    This,
    /// A regular-expression literal: pattern and flags.
    RegExp(String, String),
    /// An array literal with its elements.
    ArrayLiteral(Vec<Expression>),
    /// An object literal with its property keys and values, in source order.
    ObjectLiteral(Vec<Expression>),
    /// An untagged template literal: its static parts and its substitutions.
    TemplateLiteral(Vec<String>, Vec<Expression>),
    /// A property access: target and key.
    PropertyAccess(Box<Expression>, Box<Expression>),
    /// `++x`, `x--` and the like, with the operand.
    Update(Box<Expression>),
    /// A class expression: its superclass, if any, and its member bodies.
    Class(Option<Box<Expression>>, Vec<Statement>),
    Spread(Box<Expression>),
    /// A regular call: callee and arguments.
    Call(Box<Expression>, Vec<Expression>),
    /// `new callee(arguments)`.
    New(Box<Expression>, Vec<Expression>),
    /// `super(arguments)`.
    SuperCall(Vec<Expression>),
    /// `import(argument)`.
    ImportCall(Box<Expression>),
    OptionalChain(Box<Expression>),
    Await(Box<Expression>),
    Yield(Option<Box<Expression>>),
    Unary(Box<Expression>),
    Parenthesized(Box<Expression>),
    /// A binary operation: left and right operand.
    Binary(Box<Expression>, Box<Expression>),
    /// `#name in target`: the private name and the right side.
    PrivateIn(String, Box<Expression>),
    /// An assignment: target and value.
    Assign(Box<Expression>, Box<Expression>),
    /// `condition ? consequent : alternate`.
    Conditional(Box<Expression>, Box<Expression>, Box<Expression>),
    /// A tagged template: tag, static parts, substitutions.
    TaggedTemplate(Box<Expression>, Vec<String>, Vec<Expression>),
    /// A function, generator or arrow function expression with its body.
    Function(FunctionKind, Vec<Statement>),
}

/// A declaration node.
#[derive(Debug)]
pub enum Declaration {
    /// `var` bindings, with the initializers of those that have one.
    Var(Vec<Expression>),
    /// `let` / `const` bindings, with the initializers of those that have one.
    Lexical(Vec<Expression>),
    /// A function declaration of any flavour: name and body.
    Function(FunctionKind, String, Vec<Statement>),
    /// A class declaration: name, superclass, member bodies.
    Class(String, Option<Expression>, Vec<Statement>),
}

/// A statement node.
#[derive(Debug)]
pub enum Statement {
    Expression(Expression),
    Declaration(Declaration),
    Block(Vec<Statement>),
    Empty,
    Debugger,
    /// `if (condition) consequent else alternate`.
    If(Expression, Box<Statement>, Option<Box<Statement>>),
    While(Expression, Box<Statement>),
    /// `do body while (condition)`.
    DoWhile(Box<Statement>, Expression),
    /// `for (init; condition; step) body`.
    For(Option<Box<Statement>>, Option<Expression>, Option<Expression>, Box<Statement>),
    /// `for (target in object) body`.
    ForIn(Expression, Expression, Box<Statement>),
    /// `for (target of iterable) body`.
    ForOf(Expression, Expression, Box<Statement>),
    /// `switch (discriminant) { cases }`, the cases' statements in order.
    Switch(Expression, Vec<Statement>),
    Throw(Expression),
    /// `try block catch handler finally finalizer`.
    Try(Vec<Statement>, Vec<Statement>, Vec<Statement>),
    With(Expression, Box<Statement>),
    Labelled(String, Box<Statement>),
    Continue(Option<String>),
    Break(Option<String>),
    Return(Option<Expression>),
}

/// The literal values that the walk extracts from an expression, in source order.
pub open spec fn expression_literals(e: Expression) -> Seq<Seq<char>>
    decreases e,
{
    match e {
        Expression::StringLiteral(s) => seq![s@],
        Expression::Spread(t) => expression_literals(*t),
        Expression::Call(f, args) => expression_literals(*f) + expressions_literals(args@),
        Expression::New(f, args) => expression_literals(*f) + expressions_literals(args@),
        Expression::SuperCall(args) => expressions_literals(args@),
        Expression::ImportCall(t) => expression_literals(*t),
        Expression::OptionalChain(t) => expression_literals(*t),
        Expression::Await(t) => expression_literals(*t),
        Expression::Yield(t) => match t {
            Some(t) => expression_literals(*t),
            None => seq![],
        },
        Expression::Unary(t) => expression_literals(*t),
        Expression::Parenthesized(t) => expression_literals(*t),
        Expression::Binary(l, r) => expression_literals(*l) + expression_literals(*r),
        Expression::PrivateIn(_, r) => expression_literals(*r),
        Expression::Assign(_, r) => expression_literals(*r),
        Expression::Conditional(c, t, f) => expression_literals(*c) + expression_literals(*t)
            + expression_literals(*f),
        Expression::TaggedTemplate(tag, _, subs) => expression_literals(*tag)
            + expressions_literals(subs@),
        Expression::Function(_, body) => statements_literals(body@),
        _ => seq![],
    }
}

/// The literal values extracted from a sequence of expressions, flattened in order.
pub open spec fn expressions_literals(es: Seq<Expression>) -> Seq<Seq<char>>
    decreases es,
{
    if es.len() == 0 {
        seq![]
    } else {
        expressions_literals(es.subrange(0, es.len() - 1)) + expression_literals(es.last())
    }
}

/// The literal values extracted from a declaration.
pub open spec fn declaration_literals(d: Declaration) -> Seq<Seq<char>>
    decreases d,
{
    match d {
        Declaration::Lexical(inits) => expressions_literals(inits@),
        Declaration::Function(_, _, body) => statements_literals(body@),
        Declaration::Class(_, sup, _) => match sup {
            Some(e) => expression_literals(e),
            None => seq![],
        },
        Declaration::Var(_) => seq![],
    }
}

/// The literal values extracted from an optional expression.
pub open spec fn optional_literals(e: Option<Expression>) -> Seq<Seq<char>>
    decreases e,
{
    match e {
        Some(e) => expression_literals(e),
        None => seq![],
    }
}

/// The literal values extracted from a statement.
pub open spec fn statement_literals(s: Statement) -> Seq<Seq<char>>
    decreases s,
{
    match s {
        Statement::Expression(e) => expression_literals(e),
        Statement::Declaration(d) => declaration_literals(d),
        Statement::Block(body) => statements_literals(body@),
        Statement::If(c, t, f) => expression_literals(c) + statement_literals(*t) + match f {
            Some(f) => statement_literals(*f),
            None => seq![],
        },
        Statement::While(c, body) => expression_literals(c) + statement_literals(*body),
        Statement::DoWhile(body, c) => statement_literals(*body) + expression_literals(c),
        Statement::For(_, c, step, body) => optional_literals(c) + optional_literals(step)
            + statement_literals(*body),
        Statement::Return(e) => optional_literals(e),
        _ => seq![],
    }
}

/// The literal values extracted from a statement sequence, flattened in order.
pub open spec fn statements_literals(ss: Seq<Statement>) -> Seq<Seq<char>>
    decreases ss,
{
    if ss.len() == 0 {
        seq![]
    } else {
        statements_literals(ss.subrange(0, ss.len() - 1)) + statement_literals(ss.last())
    }
}

} // verus!
