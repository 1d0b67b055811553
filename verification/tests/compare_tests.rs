use ratel_ast::ast::{
    Arena, BinaryExpression, DeclarationKind, DeclarationStatement, Declarator, Expression,
    ExprPtr, Pattern, Statement, StmtPtr,
};
use ratel_ast::compare::{expr_eq, pattern_eq, stmt_eq};
use ratel_ast::grammar::OperatorKind;

fn sum(arena: &mut Arena, left: &str, right: &str) -> ExprPtr {
    let l = arena.alloc_expr(0, 2, Expression::Identifier(left.to_string()));
    let r = arena.alloc_expr(5, 8, Expression::Identifier(right.to_string()));
    arena.alloc_expr(
        0,
        8,
        Expression::Binary(BinaryExpression { operator: OperatorKind::Addition, left: l, right: r }),
    )
}

fn const_decl(arena: &mut Arena, name: &str, value: ExprPtr) -> StmtPtr {
    let pat = arena.alloc_pattern(0, 0, Pattern::Identifier(name.to_string()));
    arena.alloc_stmt(
        0,
        0,
        Statement::Declaration(DeclarationStatement {
            kind: DeclarationKind::Const,
            declarators: vec![Declarator { name: pat, value: Some(value) }],
        }),
    )
}

#[test]
fn equal_subtrees_compare_equal_wherever_they_live() {
    let mut arena = Arena::new();
    let first = sum(&mut arena, "to", "the");
    let second = sum(&mut arena, "to", "the");

    assert_ne!(first, second);
    assert!(expr_eq(&arena, first, second));
    assert!(expr_eq(&arena, first, first));
}

#[test]
fn different_contents_compare_unequal() {
    let mut arena = Arena::new();
    let first = sum(&mut arena, "to", "the");
    let other_name = sum(&mut arena, "to", "moon");
    assert!(!expr_eq(&arena, first, other_name));

    let l = arena.alloc_expr(0, 2, Expression::Identifier("to".to_string()));
    let r = arena.alloc_expr(5, 8, Expression::Identifier("the".to_string()));
    let other_operator = arena.alloc_expr(
        0,
        8,
        Expression::Binary(BinaryExpression {
            operator: OperatorKind::Subtraction,
            left: l,
            right: r,
        }),
    );
    assert!(!expr_eq(&arena, first, other_operator));

    let other_range = {
        let l = arena.alloc_expr(0, 2, Expression::Identifier("to".to_string()));
        let r = arena.alloc_expr(5, 8, Expression::Identifier("the".to_string()));
        arena.alloc_expr(
            1,
            9,
            Expression::Binary(BinaryExpression {
                operator: OperatorKind::Addition,
                left: l,
                right: r,
            }),
        )
    };
    assert!(!expr_eq(&arena, first, other_range));

    let bare = arena.alloc_expr(0, 8, Expression::Identifier("to".to_string()));
    assert!(!expr_eq(&arena, first, bare));
}

#[test]
fn statements_and_patterns_compare_structurally() {
    let mut arena = Arena::new();
    let v1 = sum(&mut arena, "a", "b");
    let d1 = const_decl(&mut arena, "x", v1);
    let v2 = sum(&mut arena, "a", "b");
    let d2 = const_decl(&mut arena, "x", v2);
    assert!(stmt_eq(&arena, d1, d2));

    let v3 = sum(&mut arena, "a", "b");
    let d3 = const_decl(&mut arena, "y", v3);
    assert!(!stmt_eq(&arena, d1, d3));

    let p1 = arena.alloc_pattern(3, 4, Pattern::Identifier("z".to_string()));
    let p2 = arena.alloc_pattern(3, 4, Pattern::Identifier("z".to_string()));
    let p3 = arena.alloc_pattern(3, 4, Pattern::Void);
    assert!(pattern_eq(&arena, p1, p2));
    assert!(!pattern_eq(&arena, p1, p3));
}
