use ratel_ast::ast::{
    ArrayExpression, BinaryExpression, CallExpression, ClassExpression, ConditionalExpression,
    Expression, ExprPtr, FunctionExpression, Literal, Loc, MemberExpression, ObjectExpression,
    PostfixExpression, PrefixExpression, SequenceExpression, SpreadExpression, ThisExpression,
};
use ratel_ast::grammar::OperatorKind;

fn ptr(idx: usize) -> ExprPtr {
    ExprPtr { idx }
}

fn member() -> Expression {
    Expression::Member(MemberExpression {
        object: ptr(0),
        property: Loc { start: 0, end: 0, item: "x".to_string() },
    })
}

#[test]
fn expression_binding_powers_follow_the_table() {
    assert_eq!(member().binding_power(), 18);
    assert_eq!(
        Expression::Call(CallExpression { callee: ptr(0), arguments: vec![] }).binding_power(),
        17
    );
    assert_eq!(
        Expression::Prefix(PrefixExpression {
            operator: OperatorKind::LogicalNot,
            operand: ptr(0),
        })
        .binding_power(),
        15
    );
    assert_eq!(
        Expression::Conditional(ConditionalExpression {
            test: ptr(0),
            consequent: ptr(1),
            alternate: ptr(2),
        })
        .binding_power(),
        4
    );
    assert_eq!(
        Expression::Sequence(SequenceExpression { body: vec![] }).binding_power(),
        0
    );
    // Primary expressions are atomic.
    assert_eq!(Expression::This(ThisExpression).binding_power(), 100);
    assert_eq!(Expression::Error.binding_power(), 100);
    assert_eq!(Expression::Void.binding_power(), 100);
    assert_eq!(Expression::Literal(Literal::Null).binding_power(), 100);
}

#[test]
fn binary_and_postfix_delegate_to_their_operator() {
    let add = Expression::Binary(BinaryExpression {
        operator: OperatorKind::Addition,
        left: ptr(0),
        right: ptr(1),
    });
    assert_eq!(add.binding_power(), OperatorKind::Addition.binding_power());
    assert_eq!(add.binding_power(), 13);

    let assign = Expression::Binary(BinaryExpression {
        operator: OperatorKind::Assign,
        left: ptr(0),
        right: ptr(1),
    });
    assert_eq!(assign.binding_power(), 3);

    let inc = Expression::Postfix(PostfixExpression {
        operator: OperatorKind::Increment,
        operand: ptr(0),
    });
    assert_eq!(inc.binding_power(), OperatorKind::Increment.binding_power());
    assert_eq!(inc.binding_power(), 16);
}

#[test]
fn binding_power_is_deterministic_and_ignores_subtrees() {
    let e = member();
    assert_eq!(e.binding_power(), e.binding_power());

    // Two binary expressions with the same operator but different operands.
    let left = Expression::Binary(BinaryExpression {
        operator: OperatorKind::Multiplication,
        left: ptr(0),
        right: ptr(1),
    });
    let right = Expression::Binary(BinaryExpression {
        operator: OperatorKind::Multiplication,
        left: ptr(7),
        right: ptr(9),
    });
    assert_eq!(left.binding_power(), right.binding_power());
}

#[test]
fn expressions_convert_from_their_payloads() {
    assert_eq!(Expression::from(ThisExpression), Expression::This(ThisExpression));
    assert_eq!(
        Expression::from("moon".to_string()),
        Expression::Identifier("moon".to_string())
    );
    assert_eq!(
        Expression::from(Literal::Null),
        Expression::Literal(Literal::Null)
    );
    assert_eq!(
        Expression::from(SequenceExpression { body: vec![ptr(0)] }),
        Expression::Sequence(SequenceExpression { body: vec![ptr(0)] })
    );
    assert_eq!(
        Expression::from(SpreadExpression { argument: ptr(2) }),
        Expression::Spread(SpreadExpression { argument: ptr(2) })
    );
}

#[test]
fn bare_statement_rule_rejects_exactly_three_variants() {
    let object = Expression::Object(ObjectExpression { body: vec![] });
    let function = Expression::Function(FunctionExpression {
        name: None,
        params: vec![],
        body: vec![],
    });
    let class = Expression::Class(ClassExpression { name: None, extends: None, body: vec![] });
    assert!(!object.is_allowed_as_bare_statement());
    assert!(!function.is_allowed_as_bare_statement());
    assert!(!class.is_allowed_as_bare_statement());

    assert!(Expression::Error.is_allowed_as_bare_statement());
    assert!(Expression::Void.is_allowed_as_bare_statement());
    assert!(Expression::This(ThisExpression).is_allowed_as_bare_statement());
    assert!(Expression::Identifier("x".to_string()).is_allowed_as_bare_statement());
    assert!(Expression::Literal(Literal::True).is_allowed_as_bare_statement());
    assert!(member().is_allowed_as_bare_statement());
    assert!(Expression::Array(ArrayExpression { body: vec![] }).is_allowed_as_bare_statement());
    assert!(
        Expression::Spread(SpreadExpression { argument: ptr(0) }).is_allowed_as_bare_statement()
    );
}
