use ratel_ast::ast::{
    Arena, ArrowBody, ArrowExpression, BlockStatement, BinaryExpression, CallExpression,
    ClassStatement, ClassExpression, ComputedMemberExpression, ConditionalExpression,
    DeclarationKind, DeclarationStatement, Declarator, Expression, ExprPtr, FunctionExpression,
    FunctionStatement, Literal, Loc, Module, ObjectExpression, Pattern, PostfixExpression,
    PrefixExpression, Property, PropertyKey, MethodFunction, ReturnStatement, SequenceExpression,
    SpreadExpression, Statement, StmtPtr, TemplateExpression,
};
use ratel_ast::grammar::OperatorKind;
use ratel_ast::scope::ScopeAnalyzer;
use ratel_ast::visit::{ScopeKind, Visitable};

fn name_loc(name: &str) -> Loc<String> {
    Loc { start: 0, end: 0, item: name.to_string() }
}

fn run(arena: &Arena, module: &Module) -> ScopeAnalyzer {
    let mut ctx = ScopeAnalyzer::new();
    module.traverse(arena, &mut ctx);
    ctx
}

fn tagged(pairs: &[(&str, u64)]) -> Vec<(String, u64)> {
    pairs.iter().map(|(name, depth)| (name.to_string(), *depth)).collect()
}

fn ident(arena: &mut Arena, name: &str) -> ExprPtr {
    arena.alloc_expr(0, 0, Expression::Identifier(name.to_string()))
}

fn expr_stmt(arena: &mut Arena, e: ExprPtr) -> StmtPtr {
    arena.alloc_stmt(0, 0, Statement::Expression(e))
}

fn block(arena: &mut Arena, body: Vec<StmtPtr>) -> StmtPtr {
    arena.alloc_stmt(0, 0, Statement::Block(BlockStatement { body }))
}

fn let_decl(arena: &mut Arena, kind: DeclarationKind, names: &[&str]) -> StmtPtr {
    let mut declarators = Vec::new();
    for name in names {
        let pat = arena.alloc_pattern(0, 0, Pattern::Identifier(name.to_string()));
        declarators.push(Declarator { name: pat, value: None });
    }
    arena.alloc_stmt(0, 0, Statement::Declaration(DeclarationStatement { kind, declarators }))
}

#[test]
fn keeps_track_of_blocks() {
    // {{{}}}
    let mut arena = Arena::new();
    let inner = block(&mut arena, vec![]);
    let middle = block(&mut arena, vec![inner]);
    let outer = block(&mut arena, vec![middle]);
    let module = Module { body: vec![outer] };

    let ctx = run(&arena, &module);

    assert_eq!(*ctx.scopes(), vec![ScopeKind::Block, ScopeKind::Block, ScopeKind::Block]);
    assert_eq!(ctx.depth(), 0);
    assert_eq!(ctx.max_depth(), 3);
    assert_eq!(*ctx.used_vars(), tagged(&[]));
    assert_eq!(*ctx.declared_vars(), tagged(&[]));
}

#[test]
fn keeps_track_of_declarations() {
    // let foo; const bar = 42, doge;
    let mut arena = Arena::new();
    let first = let_decl(&mut arena, DeclarationKind::Let, &["foo"]);
    let bar_pat = arena.alloc_pattern(0, 0, Pattern::Identifier("bar".to_string()));
    let forty_two = arena.alloc_expr(0, 0, Expression::Literal(Literal::Number("42".to_string())));
    let doge_pat = arena.alloc_pattern(0, 0, Pattern::Identifier("doge".to_string()));
    let second = arena.alloc_stmt(
        0,
        0,
        Statement::Declaration(DeclarationStatement {
            kind: DeclarationKind::Const,
            declarators: vec![
                Declarator { name: bar_pat, value: Some(forty_two) },
                Declarator { name: doge_pat, value: None },
            ],
        }),
    );
    let module = Module { body: vec![first, second] };

    let ctx = run(&arena, &module);

    assert_eq!(*ctx.scopes(), Vec::<ScopeKind>::new());
    assert_eq!(ctx.depth(), 0);
    assert_eq!(ctx.max_depth(), 0);
    assert_eq!(*ctx.used_vars(), tagged(&[]));
    assert_eq!(*ctx.declared_vars(), tagged(&[("foo", 0), ("bar", 0), ("doge", 0)]));
}

#[test]
fn keeps_track_of_declarations_at_the_correct_depth() {
    // let foo; { let foo; { let foo; }}
    let mut arena = Arena::new();
    let top = let_decl(&mut arena, DeclarationKind::Let, &["foo"]);
    let deep_decl = let_decl(&mut arena, DeclarationKind::Let, &["foo"]);
    let inner = block(&mut arena, vec![deep_decl]);
    let mid_decl = let_decl(&mut arena, DeclarationKind::Let, &["foo"]);
    let outer = block(&mut arena, vec![mid_decl, inner]);
    let module = Module { body: vec![top, outer] };

    let ctx = run(&arena, &module);

    assert_eq!(*ctx.scopes(), vec![ScopeKind::Block, ScopeKind::Block]);
    assert_eq!(ctx.depth(), 0);
    assert_eq!(ctx.max_depth(), 2);
    assert_eq!(*ctx.used_vars(), tagged(&[]));
    assert_eq!(*ctx.declared_vars(), tagged(&[("foo", 0), ("foo", 1), ("foo", 2)]));
}

#[test]
fn keeps_track_of_uses() {
    // doge = to + the + moon
    let mut arena = Arena::new();
    let doge = ident(&mut arena, "doge");
    let to = ident(&mut arena, "to");
    let the = ident(&mut arena, "the");
    let moon = ident(&mut arena, "moon");
    let sum_left = arena.alloc_expr(
        0,
        0,
        Expression::Binary(BinaryExpression { operator: OperatorKind::Addition, left: to, right: the }),
    );
    let sum = arena.alloc_expr(
        0,
        0,
        Expression::Binary(BinaryExpression {
            operator: OperatorKind::Addition,
            left: sum_left,
            right: moon,
        }),
    );
    let assign = arena.alloc_expr(
        0,
        0,
        Expression::Binary(BinaryExpression { operator: OperatorKind::Assign, left: doge, right: sum }),
    );
    let stmt = expr_stmt(&mut arena, assign);
    let module = Module { body: vec![stmt] };

    let ctx = run(&arena, &module);

    assert_eq!(*ctx.scopes(), Vec::<ScopeKind>::new());
    assert_eq!(ctx.depth(), 0);
    assert_eq!(ctx.max_depth(), 0);
    assert_eq!(*ctx.used_vars(), tagged(&[("doge", 0), ("to", 0), ("the", 0), ("moon", 0)]));
    assert_eq!(*ctx.declared_vars(), tagged(&[]));
}

#[test]
fn keeps_track_of_uses_at_the_correct_depth() {
    // doge; { to; { the; { moon; }}}
    let mut arena = Arena::new();
    let doge = ident(&mut arena, "doge");
    let doge_stmt = expr_stmt(&mut arena, doge);
    let moon = ident(&mut arena, "moon");
    let moon_stmt = expr_stmt(&mut arena, moon);
    let innermost = block(&mut arena, vec![moon_stmt]);
    let the = ident(&mut arena, "the");
    let the_stmt = expr_stmt(&mut arena, the);
    let inner = block(&mut arena, vec![the_stmt, innermost]);
    let to = ident(&mut arena, "to");
    let to_stmt = expr_stmt(&mut arena, to);
    let outer = block(&mut arena, vec![to_stmt, inner]);
    let module = Module { body: vec![doge_stmt, outer] };

    let ctx = run(&arena, &module);

    assert_eq!(*ctx.scopes(), vec![ScopeKind::Block, ScopeKind::Block, ScopeKind::Block]);
    assert_eq!(ctx.depth(), 0);
    assert_eq!(ctx.max_depth(), 3);
    assert_eq!(
        *ctx.used_vars(),
        tagged(&[("doge", 0), ("to", 1), ("the", 2), ("moon", 3)])
    );
    assert_eq!(*ctx.declared_vars(), tagged(&[]));
}

#[test]
fn function_and_class_are_declarations() {
    // function foo() {} class Bar {}
    let mut arena = Arena::new();
    let func = arena.alloc_stmt(
        0,
        0,
        Statement::Function(FunctionStatement {
            name: name_loc("foo"),
            params: vec![],
            body: vec![],
        }),
    );
    let class = arena.alloc_stmt(
        0,
        0,
        Statement::Class(ClassStatement { name: name_loc("Bar"), extends: None, body: vec![] }),
    );
    let module = Module { body: vec![func, class] };

    let ctx = run(&arena, &module);

    assert_eq!(*ctx.scopes(), vec![ScopeKind::Function]);
    assert_eq!(ctx.depth(), 0);
    assert_eq!(ctx.max_depth(), 1);
    assert_eq!(*ctx.used_vars(), tagged(&[]));
    assert_eq!(*ctx.declared_vars(), tagged(&[("foo", 0), ("Bar", 0)]));
}

#[test]
fn function_and_class_expressions_are_not_declarations() {
    // (function foo() {}); (class Bar {});
    let mut arena = Arena::new();
    let func = arena.alloc_expr(
        0,
        0,
        Expression::Function(FunctionExpression {
            name: Some(name_loc("foo")),
            params: vec![],
            body: vec![],
        }),
    );
    let func_stmt = expr_stmt(&mut arena, func);
    let class = arena.alloc_expr(
        0,
        0,
        Expression::Class(ClassExpression {
            name: Some(name_loc("Bar")),
            extends: None,
            body: vec![],
        }),
    );
    let class_stmt = expr_stmt(&mut arena, class);
    let module = Module { body: vec![func_stmt, class_stmt] };

    let ctx = run(&arena, &module);

    assert_eq!(*ctx.scopes(), vec![ScopeKind::Function]);
    assert_eq!(ctx.depth(), 0);
    assert_eq!(ctx.max_depth(), 1);
    assert_eq!(*ctx.used_vars(), tagged(&[]));
    assert_eq!(*ctx.declared_vars(), tagged(&[]));
}

#[test]
fn empty_class_has_no_scope() {
    // class Doge {}
    let mut arena = Arena::new();
    let class = arena.alloc_stmt(
        0,
        0,
        Statement::Class(ClassStatement { name: name_loc("Doge"), extends: None, body: vec![] }),
    );
    let module = Module { body: vec![class] };

    let ctx = run(&arena, &module);

    assert_eq!(*ctx.scopes(), Vec::<ScopeKind>::new());
    assert_eq!(ctx.depth(), 0);
    assert_eq!(ctx.max_depth(), 0);
    assert_eq!(*ctx.used_vars(), tagged(&[]));
    assert_eq!(*ctx.declared_vars(), tagged(&[("Doge", 0)]));
}

#[test]
fn functions_and_object_methods_are_scopes() {
    // function doge() { foo; return { baz() { bar; } }; }
    let mut arena = Arena::new();
    let foo = ident(&mut arena, "foo");
    let foo_stmt = expr_stmt(&mut arena, foo);
    let bar = ident(&mut arena, "bar");
    let bar_stmt = expr_stmt(&mut arena, bar);
    let baz_key = arena.alloc_key(0, 0, PropertyKey::Literal("baz".to_string()));
    let method = arena.alloc_property(
        0,
        0,
        Property::Method {
            key: baz_key,
            value: MethodFunction { params: vec![], body: vec![bar_stmt] },
        },
    );
    let object = arena.alloc_expr(0, 0, Expression::Object(ObjectExpression { body: vec![method] }));
    let ret = arena.alloc_stmt(0, 0, Statement::Return(ReturnStatement { value: Some(object) }));
    let func = arena.alloc_stmt(
        0,
        0,
        Statement::Function(FunctionStatement {
            name: name_loc("doge"),
            params: vec![],
            body: vec![foo_stmt, ret],
        }),
    );
    let module = Module { body: vec![func] };

    let ctx = run(&arena, &module);

    assert_eq!(*ctx.scopes(), vec![ScopeKind::Function, ScopeKind::Function]);
    assert_eq!(ctx.depth(), 0);
    assert_eq!(ctx.max_depth(), 2);
    assert_eq!(*ctx.used_vars(), tagged(&[("foo", 1), ("bar", 2)]));
    assert_eq!(*ctx.declared_vars(), tagged(&[("doge", 0)]));
}

#[test]
fn object_property_shorthand_is_a_use() {
    // const doge = { to, the, moon };
    let mut arena = Arena::new();
    let to = arena.alloc_property(0, 0, Property::Shorthand("to".to_string()));
    let the = arena.alloc_property(0, 0, Property::Shorthand("the".to_string()));
    let moon = arena.alloc_property(0, 0, Property::Shorthand("moon".to_string()));
    let object = arena.alloc_expr(
        0,
        0,
        Expression::Object(ObjectExpression { body: vec![to, the, moon] }),
    );
    let doge_pat = arena.alloc_pattern(0, 0, Pattern::Identifier("doge".to_string()));
    let decl = arena.alloc_stmt(
        0,
        0,
        Statement::Declaration(DeclarationStatement {
            kind: DeclarationKind::Const,
            declarators: vec![Declarator { name: doge_pat, value: Some(object) }],
        }),
    );
    let module = Module { body: vec![decl] };

    let ctx = run(&arena, &module);

    assert_eq!(*ctx.scopes(), Vec::<ScopeKind>::new());
    assert_eq!(ctx.depth(), 0);
    assert_eq!(ctx.max_depth(), 0);
    assert_eq!(*ctx.used_vars(), tagged(&[("to", 0), ("the", 0), ("moon", 0)]));
    assert_eq!(*ctx.declared_vars(), tagged(&[("doge", 0)]));
}

#[test]
fn every_expression_child_is_walked_in_source_order() {
    // doge(...to)[the] ? (a, b) : c ** d; tag`x${moon}y`; (!e); f++; (p) => q;
    let mut arena = Arena::new();
    let doge = ident(&mut arena, "doge");
    let to = ident(&mut arena, "to");
    let spread = arena.alloc_expr(0, 0, Expression::Spread(SpreadExpression { argument: to }));
    let call = arena.alloc_expr(
        0,
        0,
        Expression::Call(CallExpression { callee: doge, arguments: vec![spread] }),
    );
    let the = ident(&mut arena, "the");
    let member = arena.alloc_expr(
        0,
        0,
        Expression::ComputedMember(ComputedMemberExpression { object: call, property: the }),
    );
    let a = ident(&mut arena, "a");
    let b = ident(&mut arena, "b");
    let pair = arena.alloc_expr(0, 0, Expression::Sequence(SequenceExpression { body: vec![a, b] }));
    let c = ident(&mut arena, "c");
    let d = ident(&mut arena, "d");
    let power = arena.alloc_expr(
        0,
        0,
        Expression::Binary(BinaryExpression { operator: OperatorKind::Exponent, left: c, right: d }),
    );
    let cond = arena.alloc_expr(
        0,
        0,
        Expression::Conditional(ConditionalExpression {
            test: member,
            consequent: pair,
            alternate: power,
        }),
    );
    let cond_stmt = expr_stmt(&mut arena, cond);

    let tag = ident(&mut arena, "tag");
    let moon = ident(&mut arena, "moon");
    let template = arena.alloc_expr(
        0,
        0,
        Expression::Template(TemplateExpression {
            tag: Some(tag),
            expressions: vec![moon],
            quasis: vec![
                Loc { start: 0, end: 0, item: "x".to_string() },
                Loc { start: 0, end: 0, item: "y".to_string() },
            ],
        }),
    );
    let template_stmt = expr_stmt(&mut arena, template);

    let e = ident(&mut arena, "e");
    let not = arena.alloc_expr(
        0,
        0,
        Expression::Prefix(PrefixExpression { operator: OperatorKind::LogicalNot, operand: e }),
    );
    let not_stmt = expr_stmt(&mut arena, not);

    let f = ident(&mut arena, "f");
    let inc = arena.alloc_expr(
        0,
        0,
        Expression::Postfix(PostfixExpression { operator: OperatorKind::Increment, operand: f }),
    );
    let inc_stmt = expr_stmt(&mut arena, inc);

    let p = arena.alloc_pattern(0, 0, Pattern::Identifier("p".to_string()));
    let q = ident(&mut arena, "q");
    let arrow = arena.alloc_expr(
        0,
        0,
        Expression::Arrow(ArrowExpression { params: vec![p], body: ArrowBody::Expression(q) }),
    );
    let arrow_stmt = expr_stmt(&mut arena, arrow);

    let module = Module {
        body: vec![cond_stmt, template_stmt, not_stmt, inc_stmt, arrow_stmt],
    };

    let ctx = ratel_ast::scope::analyze_module(&arena, &module);

    assert_eq!(*ctx.scopes(), Vec::<ScopeKind>::new());
    assert_eq!(ctx.depth(), 0);
    assert_eq!(ctx.max_depth(), 0);
    assert_eq!(
        *ctx.used_vars(),
        tagged(&[
            ("doge", 0),
            ("to", 0),
            ("the", 0),
            ("a", 0),
            ("b", 0),
            ("c", 0),
            ("d", 0),
            ("tag", 0),
            ("moon", 0),
            ("e", 0),
            ("f", 0),
            ("q", 0),
        ])
    );
    assert_eq!(*ctx.declared_vars(), tagged(&[("p", 0)]));
}

#[test]
fn function_params_are_declarations() {
    // function doge(to, the) { const moon; }
    let mut arena = Arena::new();
    let to = arena.alloc_pattern(0, 0, Pattern::Identifier("to".to_string()));
    let the = arena.alloc_pattern(0, 0, Pattern::Identifier("the".to_string()));
    let moon_decl = let_decl(&mut arena, DeclarationKind::Const, &["moon"]);
    let func = arena.alloc_stmt(
        0,
        0,
        Statement::Function(FunctionStatement {
            name: name_loc("doge"),
            params: vec![to, the],
            body: vec![moon_decl],
        }),
    );
    let module = Module { body: vec![func] };

    let ctx = run(&arena, &module);

    assert_eq!(*ctx.scopes(), vec![ScopeKind::Function]);
    assert_eq!(ctx.depth(), 0);
    assert_eq!(ctx.max_depth(), 1);
    assert_eq!(*ctx.used_vars(), tagged(&[]));
    assert_eq!(
        *ctx.declared_vars(),
        tagged(&[("doge", 0), ("to", 1), ("the", 1), ("moon", 1)])
    );
}
