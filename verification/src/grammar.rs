//! The operator-precedence model embedded in the expression grammar: a
//! binding-power level per expression kind, delegating to the carried
//! operator for binary and postfix expressions, and the predicate telling
//! which expressions may stand as a bare, unparenthesized statement.

use vstd::prelude::*;
use crate::ast::Expression;

verus! {

/// Every operator the expression grammar carries, prefix, infix, postfix
/// and assigning alike.
#[derive(Debug, Clone, Copy, PartialEq, Eq, Structural)]
pub enum OperatorKind {
    FatArrow,
    New,
    Increment,
    Decrement,
    LogicalNot,
    BitwiseNot,
    Typeof,
    Void,
    Delete,
    Exponent,
    Multiplication,
    Division,
    Remainder,
    Addition,
    Subtraction,
    BitShiftLeft,
    BitShiftRight,
    UBitShiftRight,
    Lesser,
    LesserEquals,
    Greater,
    GreaterEquals,
    Instanceof,
    In,
    StrictEquality,
    StrictInequality,
    Equality,
    Inequality,
    BitwiseAnd,
    BitwiseXor,
    BitwiseOr,
    LogicalAnd,
    LogicalOr,
    Conditional,
    Assign,
    AddAssign,
    SubtractAssign,
    ExponentAssign,
    MultiplyAssign,
    DivideAssign,
    RemainderAssign,
    BSLAssign,
    BSRAssign,
    UBSRAssign,
    BitAndAssign,
    BitXorAssign,
    BitOrAssign,
    Spread,
}

/// The operator's own precedence level, following the JavaScript operator
/// table: assignment binds loosest of the carried operators, member-like
/// forms tightest.
pub open spec fn spec_operator_binding_power(op: OperatorKind) -> u8 {
    match op {
        OperatorKind::FatArrow => 18,
        OperatorKind::New => 18,
        OperatorKind::Increment => 16,
        OperatorKind::Decrement => 16,
        OperatorKind::LogicalNot => 15,
        OperatorKind::BitwiseNot => 15,
        OperatorKind::Typeof => 15,
        OperatorKind::Void => 15,
        OperatorKind::Delete => 15,
        OperatorKind::Exponent => 15,
        OperatorKind::Multiplication => 14,
        OperatorKind::Division => 14,
        OperatorKind::Remainder => 14,
        OperatorKind::Addition => 13,
        OperatorKind::Subtraction => 13,
        OperatorKind::BitShiftLeft => 12,
        OperatorKind::BitShiftRight => 12,
        OperatorKind::UBitShiftRight => 12,
        OperatorKind::Lesser => 11,
        OperatorKind::LesserEquals => 11,
        OperatorKind::Greater => 11,
        OperatorKind::GreaterEquals => 11,
        OperatorKind::Instanceof => 11,
        OperatorKind::In => 11,
        OperatorKind::StrictEquality => 10,
        OperatorKind::StrictInequality => 10,
        OperatorKind::Equality => 10,
        OperatorKind::Inequality => 10,
        OperatorKind::BitwiseAnd => 9,
        OperatorKind::BitwiseXor => 8,
        OperatorKind::BitwiseOr => 7,
        OperatorKind::LogicalAnd => 6,
        OperatorKind::LogicalOr => 5,
        OperatorKind::Conditional => 4,
        OperatorKind::Assign => 3,
        OperatorKind::AddAssign => 3,
        OperatorKind::SubtractAssign => 3,
        OperatorKind::ExponentAssign => 3,
        OperatorKind::MultiplyAssign => 3,
        OperatorKind::DivideAssign => 3,
        OperatorKind::RemainderAssign => 3,
        OperatorKind::BSLAssign => 3,
        OperatorKind::BSRAssign => 3,
        OperatorKind::UBSRAssign => 3,
        OperatorKind::BitAndAssign => 3,
        OperatorKind::BitXorAssign => 3,
        OperatorKind::BitOrAssign => 3,
        OperatorKind::Spread => 1,
    }
}

impl OperatorKind {
    /// The operator's own precedence level.
    pub fn binding_power(&self) -> (r: u8)
        ensures
            r == spec_operator_binding_power(*self),
    {
        match *self {
            OperatorKind::FatArrow => 18,
            OperatorKind::New => 18,
            OperatorKind::Increment => 16,
            OperatorKind::Decrement => 16,
            OperatorKind::LogicalNot => 15,
            OperatorKind::BitwiseNot => 15,
            OperatorKind::Typeof => 15,
            OperatorKind::Void => 15,
            OperatorKind::Delete => 15,
            OperatorKind::Exponent => 15,
            OperatorKind::Multiplication => 14,
            OperatorKind::Division => 14,
            OperatorKind::Remainder => 14,
            OperatorKind::Addition => 13,
            OperatorKind::Subtraction => 13,
            OperatorKind::BitShiftLeft => 12,
            OperatorKind::BitShiftRight => 12,
            OperatorKind::UBitShiftRight => 12,
            OperatorKind::Lesser => 11,
            OperatorKind::LesserEquals => 11,
            OperatorKind::Greater => 11,
            OperatorKind::GreaterEquals => 11,
            OperatorKind::Instanceof => 11,
            OperatorKind::In => 11,
            OperatorKind::StrictEquality => 10,
            OperatorKind::StrictInequality => 10,
            OperatorKind::Equality => 10,
            OperatorKind::Inequality => 10,
            OperatorKind::BitwiseAnd => 9,
            OperatorKind::BitwiseXor => 8,
            OperatorKind::BitwiseOr => 7,
            OperatorKind::LogicalAnd => 6,
            OperatorKind::LogicalOr => 5,
            OperatorKind::Conditional => 4,
            OperatorKind::Assign => 3,
            OperatorKind::AddAssign => 3,
            OperatorKind::SubtractAssign => 3,
            OperatorKind::ExponentAssign => 3,
            OperatorKind::MultiplyAssign => 3,
            OperatorKind::DivideAssign => 3,
            OperatorKind::RemainderAssign => 3,
            OperatorKind::BSLAssign => 3,
            OperatorKind::BSRAssign => 3,
            OperatorKind::UBSRAssign => 3,
            OperatorKind::BitAndAssign => 3,
            OperatorKind::BitXorAssign => 3,
            OperatorKind::BitOrAssign => 3,
            OperatorKind::Spread => 1,
        }
    }
}

/// The precedence level of an expression: member access and arrows bind
/// tightest, calls next, then prefix operators; binary and postfix
/// expressions delegate to their carried operator; the conditional sits at
/// its operator's level and a sequence binds loosest. Every other, primary
/// expression is atomic and never needs parenthesization. The value is a
/// function of the variant and, where applicable, the carried operator
/// alone: it never depends on the subtrees.
pub open spec fn spec_binding_power(e: Expression) -> u8 {
    match e {
        Expression::Member(_) => 18,
        Expression::Arrow(_) => 18,
        Expression::Call(_) => 17,
        Expression::Prefix(_) => 15,
        Expression::Binary(b) => spec_operator_binding_power(b.operator),
        Expression::Postfix(p) => spec_operator_binding_power(p.operator),
        Expression::Conditional(_) => 4,
        Expression::Sequence(_) => 0,
        _ => 100,
    }
}

/// An expression may stand as a bare statement unless it is an object
/// literal, a function expression or a class expression, which need
/// disambiguating parentheses at statement position.
pub open spec fn spec_is_allowed_as_bare_statement(e: Expression) -> bool {
    !(e is Object || e is Function || e is Class)
}

impl Expression {
    /// The precedence level consulted for parenthesization decisions; see
    /// [`spec_binding_power`].
    pub fn binding_power(&self) -> (r: u8)
        ensures
            r == spec_binding_power(*self),
    {
        match self {
            Expression::Member(_) => 18,
            Expression::Arrow(_) => 18,
            Expression::Call(_) => 17,
            Expression::Prefix(_) => 15,
            Expression::Binary(b) => b.operator.binding_power(),
            Expression::Postfix(p) => p.operator.binding_power(),
            Expression::Conditional(_) => 4,
            Expression::Sequence(_) => 0,
            _ => 100,
        }
    }

    /// True exactly when this expression is legal as a bare statement; see
    /// [`spec_is_allowed_as_bare_statement`].
    pub fn is_allowed_as_bare_statement(&self) -> (r: bool)
        ensures
            r == spec_is_allowed_as_bare_statement(*self),
    {
        match self {
            Expression::Object(_) => false,
            Expression::Function(_) => false,
            Expression::Class(_) => false,
            _ => true,
        }
    }
}

/// Binding power never depends on subtree contents: two binary expressions
/// carrying the same operator have the same power, whatever their operands.
pub proof fn lemma_binary_power_ignores_operands(
    a: crate::ast::BinaryExpression,
    b: crate::ast::BinaryExpression,
)
    requires
        a.operator == b.operator,
    ensures
        spec_binding_power(Expression::Binary(a)) == spec_binding_power(Expression::Binary(b)),
{
}

/// The same for postfix expressions: the operand is irrelevant.
pub proof fn lemma_postfix_power_ignores_operand(
    a: crate::ast::PostfixExpression,
    b: crate::ast::PostfixExpression,
)
    requires
        a.operator == b.operator,
    ensures
        spec_binding_power(Expression::Postfix(a)) == spec_binding_power(Expression::Postfix(b)),
{
}

} // verus!
