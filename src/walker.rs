use vstd::prelude::*;

use crate::syntax::{
    Declaration, Expression, Statement, declaration_literals, expression_literals,
    expressions_literals, optional_literals, statement_literals, statements_literals,
};

verus! {

broadcast use vstd::std_specs::vec::group_vec_axioms;

/// The character sequences held by a sequence of strings.
pub open spec fn views(v: Seq<String>) -> Seq<Seq<char>> {
    v.map_values(|s: String| s@)
}

proof fn lemma_views_push(v: Seq<String>, s: String)
    ensures
        views(v.push(s)) == views(v) + seq![s@],
{
    assert(views(v.push(s)) =~= views(v) + seq![s@]);
}

proof fn lemma_prefix_step_expr(es: Seq<Expression>, i: int)
    requires
        0 <= i < es.len(),
    ensures
        expressions_literals(es.subrange(0, i + 1)) == expressions_literals(es.subrange(0, i))
            + expression_literals(es[i]),
{
    assert(es.subrange(0, i + 1).subrange(0, i) =~= es.subrange(0, i));
}

proof fn lemma_prefix_step_stmt(ss: Seq<Statement>, i: int)
    requires
        0 <= i < ss.len(),
    ensures
        statements_literals(ss.subrange(0, i + 1)) == statements_literals(ss.subrange(0, i))
            + statement_literals(ss[i]),
{
    assert(ss.subrange(0, i + 1).subrange(0, i) =~= ss.subrange(0, i));
}

/// Appends to `out` the literals that the walk extracts from `e`.
pub fn walk_expression(e: &Expression, out: &mut Vec<String>)
    ensures
        views(final(out)@) == views(old(out)@) + expression_literals(*e),
    decreases e,
{
    let ghost start = views(out@);
    match e {
        Expression::StringLiteral(s) => {
            let c = s.clone();
            proof {
                lemma_views_push(out@, c);
            }
            out.push(c);
        },
        Expression::Spread(t) | Expression::ImportCall(t) | Expression::OptionalChain(t)
        | Expression::Await(t) | Expression::Unary(t) | Expression::Parenthesized(t)
        | Expression::PrivateIn(_, t) | Expression::Assign(_, t) => {
            walk_expression(t, out);
        },
        Expression::Yield(t) => {
            match t {
                Some(t) => walk_expression(t, out),
                None => {
                    assert(views(out@) =~= start + seq![]);
                },
            }
        },
        Expression::Call(f, args) | Expression::New(f, args) | Expression::TaggedTemplate(
            f,
            _,
            args,
        ) => {
            walk_expression(f, out);
            walk_expressions(args, out);
            assert(views(out@) =~= start + expression_literals(*e));
        },
        Expression::SuperCall(args) => {
            walk_expressions(args, out);
        },
        Expression::Binary(l, r) => {
            walk_expression(l, out);
            walk_expression(r, out);
            assert(views(out@) =~= start + expression_literals(*e));
        },
        Expression::Conditional(c, t, f) => {
            walk_expression(c, out);
            walk_expression(t, out);
            walk_expression(f, out);
            assert(views(out@) =~= start + expression_literals(*e));
        },
        Expression::Function(_, body) => {
            walk_statements(body, out);
        },
        _ => {
            assert(views(out@) =~= start + expression_literals(*e));
        },
    }
}

/// Appends to `out` the literals extracted from each of `es`, in order.
pub fn walk_expressions(es: &Vec<Expression>, out: &mut Vec<String>)
    ensures
        views(final(out)@) == views(old(out)@) + expressions_literals(es@),
    decreases es,
{
    let ghost start = views(out@);
    let mut i: usize = 0;
    assert(es@.subrange(0, 0) =~= Seq::<Expression>::empty());
    assert(views(out@) =~= start + expressions_literals(es@.subrange(0, 0)));
    while i < es.len()
        invariant
            i <= es@.len(),
            views(out@) == start + expressions_literals(es@.subrange(0, i as int)),
        decreases es@.len() - i,
    {
        proof {
            lemma_prefix_step_expr(es@, i as int);
        }
        walk_expression(&es[i], out);
        i = i + 1;
        assert(views(out@) =~= start + expressions_literals(es@.subrange(0, i as int)));
    }
    assert(es@.subrange(0, es@.len() as int) =~= es@);
}

fn walk_optional(e: &Option<Expression>, out: &mut Vec<String>)
    ensures
        views(final(out)@) == views(old(out)@) + optional_literals(*e),
    decreases e,
{
    match e {
        Some(e) => walk_expression(e, out),
        None => {
            assert(views(out@) =~= views(out@) + optional_literals(None));
        },
    }
}

/// Appends to `out` the literals that the walk extracts from `d`.
pub fn walk_declaration(d: &Declaration, out: &mut Vec<String>)
    ensures
        views(final(out)@) == views(old(out)@) + declaration_literals(*d),
    decreases d,
{
    let ghost start = views(out@);
    match d {
        Declaration::Lexical(inits) => walk_expressions(inits, out),
        Declaration::Function(_, _, body) => walk_statements(body, out),
        Declaration::Class(_, sup, _) => {
            match sup {
                Some(e) => walk_expression(e, out),
                None => {
                    assert(views(out@) =~= start + declaration_literals(*d));
                },
            }
        },
        Declaration::Var(_) => {
            assert(views(out@) =~= start + declaration_literals(*d));
        },
    }
}

/// Appends to `out` the literals that the walk extracts from `s`.
pub fn walk_statement(s: &Statement, out: &mut Vec<String>)
    ensures
        views(final(out)@) == views(old(out)@) + statement_literals(*s),
    decreases s,
{
    let ghost start = views(out@);
    match s {
        Statement::Expression(e) => walk_expression(e, out),
        Statement::Declaration(d) => walk_declaration(d, out),
        Statement::Block(body) => walk_statements(body, out),
        Statement::If(c, t, f) => {
            walk_expression(c, out);
            walk_statement(t, out);
            match f {
                Some(f) => walk_statement(f, out),
                None => {},
            }
            assert(views(out@) =~= start + statement_literals(*s));
        },
        Statement::While(c, body) => {
            walk_expression(c, out);
            walk_statement(body, out);
            assert(views(out@) =~= start + statement_literals(*s));
        },
        Statement::DoWhile(body, c) => {
            walk_statement(body, out);
            walk_expression(c, out);
            assert(views(out@) =~= start + statement_literals(*s));
        },
        Statement::For(_, c, step, body) => {
            walk_optional(c, out);
            walk_optional(step, out);
            walk_statement(body, out);
            assert(views(out@) =~= start + statement_literals(*s));
        },
        Statement::Return(e) => walk_optional(e, out),
        _ => {
            assert(views(out@) =~= start + statement_literals(*s));
        },
    }
}

/// Appends to `out` the literals extracted from each of `ss`, in order.
pub fn walk_statements(ss: &Vec<Statement>, out: &mut Vec<String>)
    ensures
        views(final(out)@) == views(old(out)@) + statements_literals(ss@),
    decreases ss,
{
    let ghost start = views(out@);
    let mut i: usize = 0;
    assert(ss@.subrange(0, 0) =~= Seq::<Statement>::empty());
    assert(views(out@) =~= start + statements_literals(ss@.subrange(0, 0)));
    while i < ss.len()
        invariant
            i <= ss@.len(),
            views(out@) == start + statements_literals(ss@.subrange(0, i as int)),
        decreases ss@.len() - i,
    {
        proof {
            lemma_prefix_step_stmt(ss@, i as int);
        }
        walk_statement(&ss[i], out);
        i = i + 1;
        assert(views(out@) =~= start + statements_literals(ss@.subrange(0, i as int)));
    }
    assert(ss@.subrange(0, ss@.len() as int) =~= ss@);
}

/// The literals reachable in a script body, in source order, flattened across nested
/// function bodies.
pub fn extract_literals(script: &Vec<Statement>) -> (r: Vec<String>)
    ensures
        views(r@) == statements_literals(script@),
{
    let mut out: Vec<String> = Vec::new();
    assert(views(out@) =~= Seq::<Seq<char>>::empty());
    walk_statements(script, &mut out);
    assert(views(out@) =~= statements_literals(script@));
    out
}

/// Walking two statement sequences one after the other gives the values of the first,
/// then those of the second: the output follows source order across statements and
/// across nested function bodies alike.
pub proof fn lemma_order_preserved(first: Seq<Statement>, second: Seq<Statement>)
    ensures
        statements_literals(first + second) == statements_literals(first) + statements_literals(
            second,
        ),
    decreases second.len(),
{
    if second.len() == 0 {
        assert(first + second =~= first);
        assert(statements_literals(first) + seq![] =~= statements_literals(first));
    } else {
        let whole = first + second;
        let shorter = second.subrange(0, second.len() - 1);
        assert(whole.subrange(0, whole.len() - 1) =~= first + shorter);
        assert(whole.last() == second.last());
        lemma_order_preserved(first, shorter);
        assert(statements_literals(whole) =~= statements_literals(first) + statements_literals(
            second,
        ));
    }
}

proof fn lemma_single_expression(e: Expression)
    ensures
        expressions_literals(seq![e]) == expression_literals(e),
{
    let one = seq![e];
    assert(one.subrange(0, 0) =~= Seq::<Expression>::empty());
    assert(one.last() == e);
    assert(expressions_literals(Seq::<Expression>::empty()) == Seq::<Seq<char>>::empty());
    assert(Seq::<Seq<char>>::empty() + expression_literals(e) =~= expression_literals(e));
}

proof fn lemma_single_statement(s: Statement)
    ensures
        statements_literals(seq![s]) == statement_literals(s),
{
    let one = seq![s];
    assert(one.subrange(0, 0) =~= Seq::<Statement>::empty());
    assert(one.last() == s);
    assert(statements_literals(Seq::<Statement>::empty()) == Seq::<Seq<char>>::empty());
    assert(Seq::<Seq<char>>::empty() + statement_literals(s) =~= statement_literals(s));
}

/// A string literal is extracted where it stands in a reachable position: as a call
/// argument, the value of an assignment, a `let`/`const` initializer, the target of a
/// `return`, the body of a nested function or a condition. It is not extracted where it
/// stands in an opaque one: an array or object literal, the substitution of an untagged
/// template, a property key, a `var` initializer, a `throw`, or the target of a
/// `for-of`.
pub proof fn lemma_literal_positions(
    value: String,
    name: String,
    args: Vec<Expression>,
    body: Vec<Statement>,
    inits: Vec<Expression>,
    statics: Vec<String>,
    other: Box<Expression>,
    inner: Box<Statement>,
)
    requires
        args@ == seq![Expression::StringLiteral(value)],
        inits@ == seq![Expression::StringLiteral(value)],
        body@ == seq![Statement::Return(Some(Expression::StringLiteral(value)))],
        *other == Expression::Identifier(name),
        *inner == Statement::Empty,
    ensures
        statement_literals(
            Statement::Expression(Expression::Call(other, args)),
        ) == seq![value@],
        expression_literals(
            Expression::Assign(other, Box::new(Expression::StringLiteral(value))),
        ) == seq![value@],
        declaration_literals(Declaration::Lexical(inits)) == seq![value@],
        statements_literals(body@) == seq![value@],
        expression_literals(Expression::Function(crate::syntax::FunctionKind::Arrow, body))
            == seq![value@],
        statement_literals(
            Statement::While(Expression::StringLiteral(value), inner),
        ) == seq![value@],
        expression_literals(Expression::ArrayLiteral(args)) == Seq::<Seq<char>>::empty(),
        expression_literals(Expression::ObjectLiteral(args)) == Seq::<Seq<char>>::empty(),
        expression_literals(Expression::TemplateLiteral(statics, args)) == Seq::<
            Seq<char>,
        >::empty(),
        expression_literals(
            Expression::PropertyAccess(other, Box::new(Expression::StringLiteral(value))),
        ) == Seq::<Seq<char>>::empty(),
        declaration_literals(Declaration::Var(inits)) == Seq::<Seq<char>>::empty(),
        statement_literals(Statement::Throw(Expression::StringLiteral(value))) == Seq::<
            Seq<char>,
        >::empty(),
        statement_literals(
            Statement::ForOf(Expression::Identifier(name), Expression::StringLiteral(value), inner),
        ) == Seq::<Seq<char>>::empty(),
{
    lemma_single_expression(Expression::StringLiteral(value));
    lemma_single_statement(Statement::Return(Some(Expression::StringLiteral(value))));
    assert(optional_literals(Some(Expression::StringLiteral(value))) == seq![value@]);
    assert(statement_literals(Statement::Return(Some(Expression::StringLiteral(value))))
        == seq![value@]);
    assert(expressions_literals(args@) == seq![value@]);
    assert(expression_literals(Expression::Call(other, args)) == expression_literals(*other)
        + expressions_literals(args@));
    assert(expression_literals(*other) =~= Seq::<Seq<char>>::empty());
    assert(expression_literals(*other) + seq![value@] =~= seq![value@]);
    assert(statement_literals(*inner) =~= Seq::<Seq<char>>::empty());
    assert(seq![value@] + statement_literals(*inner) =~= seq![value@]);
}

} // verus!
