use sift::syntax::{Declaration, Expression, FunctionKind, Statement};
use sift::walker::extract_literals;

fn lit(s: &str) -> Expression {
    Expression::StringLiteral(s.to_string())
}

fn ident(s: &str) -> Expression {
    Expression::Identifier(s.to_string())
}

fn extract(stmts: Vec<Statement>) -> Vec<String> {
    extract_literals(&stmts)
}

#[test]
fn bare_literal_statement_is_extracted() {
    assert_eq!(extract(vec![Statement::Expression(lit("use strict"))]), vec!["use strict"]);
}

#[test]
fn reachable_positions_are_extracted() {
    let cases: Vec<Statement> = vec![
        Statement::Expression(Expression::Call(Box::new(ident("f")), vec![lit("arg")])),
        Statement::Expression(Expression::New(Box::new(ident("C")), vec![lit("ctor")])),
        Statement::Expression(Expression::SuperCall(vec![lit("sup")])),
        Statement::Expression(Expression::ImportCall(Box::new(lit("mod.js")))),
        Statement::Expression(Expression::Await(Box::new(lit("aw")))),
        Statement::Expression(Expression::Yield(Some(Box::new(lit("yi"))))),
        Statement::Expression(Expression::Unary(Box::new(lit("un")))),
        Statement::Expression(Expression::Parenthesized(Box::new(lit("pa")))),
        Statement::Expression(Expression::OptionalChain(Box::new(lit("oc")))),
        Statement::Expression(Expression::Spread(Box::new(lit("sp")))),
        Statement::Expression(Expression::Binary(Box::new(lit("l")), Box::new(lit("r")))),
        Statement::Expression(Expression::Assign(Box::new(ident("x")), Box::new(lit("as")))),
        Statement::Expression(Expression::PrivateIn("p".to_string(), Box::new(lit("pi")))),
        Statement::Expression(Expression::Conditional(
            Box::new(lit("c")),
            Box::new(lit("t")),
            Box::new(lit("e")),
        )),
        Statement::Expression(Expression::TaggedTemplate(
            Box::new(lit("tag")),
            vec!["static".to_string()],
            vec![lit("sub")],
        )),
        Statement::Declaration(Declaration::Lexical(vec![lit("let")])),
        Statement::Declaration(Declaration::Class("K".to_string(), Some(lit("base")), vec![])),
        Statement::Declaration(Declaration::Function(
            FunctionKind::Async,
            "g".to_string(),
            vec![Statement::Expression(lit("fbody"))],
        )),
        Statement::Block(vec![Statement::Expression(lit("block"))]),
        Statement::If(lit("cond"), Box::new(Statement::Expression(lit("then"))), Some(Box::new(
            Statement::Expression(lit("else")),
        ))),
        Statement::While(lit("wc"), Box::new(Statement::Expression(lit("wb")))),
        Statement::DoWhile(Box::new(Statement::Expression(lit("db"))), lit("dc")),
        Statement::For(
            Some(Box::new(Statement::Expression(lit("init")))),
            Some(lit("fc")),
            Some(lit("fs")),
            Box::new(Statement::Expression(lit("fb"))),
        ),
        Statement::Return(Some(lit("ret"))),
    ];
    assert_eq!(
        extract(cases),
        vec![
            "arg", "ctor", "sup", "mod.js", "aw", "yi", "un", "pa", "oc", "sp", "l", "r", "as",
            "pi", "c", "t", "e", "tag", "sub", "let", "base", "fbody", "block", "cond", "then",
            "else", "wc", "wb", "db", "dc", "fc", "fs", "fb", "ret",
        ]
    );
}

#[test]
fn opaque_positions_are_skipped() {
    let body = vec![Statement::Expression(lit("hidden"))];
    let cases: Vec<Statement> = vec![
        Statement::Expression(ident("hidden")),
        Statement::Expression(Expression::This),
        Statement::Expression(Expression::RegExp("hidden".to_string(), "g".to_string())),
        Statement::Expression(Expression::ArrayLiteral(vec![lit("hidden")])),
        Statement::Expression(Expression::ObjectLiteral(vec![lit("key"), lit("hidden")])),
        Statement::Expression(Expression::TemplateLiteral(
            vec!["hidden".to_string()],
            vec![lit("hidden")],
        )),
        Statement::Expression(Expression::PropertyAccess(Box::new(lit("a")), Box::new(lit("b")))),
        Statement::Expression(Expression::Update(Box::new(lit("hidden")))),
        Statement::Expression(Expression::Class(Some(Box::new(lit("hidden"))), vec![])),
        Statement::Expression(Expression::Assign(Box::new(lit("target")), Box::new(ident("v")))),
        Statement::Declaration(Declaration::Var(vec![lit("hidden")])),
        Statement::Declaration(Declaration::Class("K".to_string(), None, body)),
        Statement::ForIn(ident("k"), lit("hidden"), Box::new(Statement::Expression(lit("x")))),
        Statement::ForOf(ident("k"), lit("hidden"), Box::new(Statement::Expression(lit("x")))),
        Statement::Switch(lit("hidden"), vec![Statement::Expression(lit("x"))]),
        Statement::Throw(lit("hidden")),
        Statement::Try(
            vec![Statement::Expression(lit("x"))],
            vec![Statement::Expression(lit("y"))],
            vec![Statement::Expression(lit("z"))],
        ),
        Statement::With(lit("hidden"), Box::new(Statement::Expression(lit("x")))),
        Statement::Labelled("l".to_string(), Box::new(Statement::Expression(lit("x")))),
        Statement::Continue(Some("l".to_string())),
        Statement::Break(None),
        Statement::Return(None),
        Statement::Empty,
        Statement::Debugger,
    ];
    assert!(extract(cases).is_empty());
}

#[test]
fn order_is_kept_across_nested_functions() {
    let nested = Expression::Function(
        FunctionKind::Plain,
        vec![Statement::Return(Some(lit("b")))],
    );
    let script = vec![
        Statement::Expression(lit("a")),
        Statement::Declaration(Declaration::Lexical(vec![nested])),
        Statement::Expression(Expression::Call(Box::new(ident("g")), vec![lit("c")])),
    ];
    assert_eq!(extract(script), vec!["a", "b", "c"]);
}

#[test]
fn deep_nesting_is_walked() {
    let mut inner = Statement::Return(Some(lit("deep")));
    for _ in 0..50 {
        inner = Statement::Return(Some(Expression::Function(FunctionKind::Arrow, vec![inner])));
    }
    assert_eq!(extract(vec![inner]), vec!["deep"]);
}

#[test]
fn repeated_literals_are_kept() {
    let script = vec![
        Statement::Expression(lit("x")),
        Statement::Expression(lit("x")),
    ];
    assert_eq!(extract(script), vec!["x", "x"]);
}

#[test]
fn empty_script_gives_nothing() {
    assert!(extract(vec![]).is_empty());
}
