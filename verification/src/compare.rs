//! Structural equality of arena nodes: two handles compare equal when the
//! located values they reference are equal structurally — same ranges,
//! same variants, same names and operators, and structurally equal
//! children — regardless of where the two subtrees live in the arena.
//! This is what lets a test compare two trees without deep-cloning either.

use vstd::prelude::*;
use crate::ast::Arena;
use crate::ast::ArrowBody;
use crate::ast::ClassMember;
use crate::ast::Declarator;
use crate::ast::Expression;
use crate::ast::ExprPtr;
use crate::ast::Literal;
use crate::ast::Loc;
use crate::ast::MethodFunction;
use crate::ast::Node;
use crate::ast::Pattern;
use crate::ast::PatternPtr;
use crate::ast::Property;
use crate::ast::PropertyKey;
use crate::ast::PropertyKeyPtr;
use crate::ast::PropertyPtr;
use crate::ast::Statement;
use crate::ast::StmtPtr;
use crate::ast::node_wf_at;
use crate::ast::wf;

verus! {

/// Two located names are equal: same range, same text.
pub open spec fn name_eq(x: Loc<String>, y: Loc<String>) -> bool {
    x.start == y.start && x.end == y.end && x.item@ == y.item@
}

/// Two optional located names are equal.
pub open spec fn opt_name_eq(x: Option<Loc<String>>, y: Option<Loc<String>>) -> bool {
    match (x, y) {
        (Option::Some(a), Option::Some(b)) => name_eq(a, b),
        (Option::None, Option::None) => true,
        _ => false,
    }
}

/// Two literal tokens are equal: same variant, same source text.
pub open spec fn literal_eq(x: Literal, y: Literal) -> bool {
    match (x, y) {
        (Literal::Undefined, Literal::Undefined) => true,
        (Literal::Null, Literal::Null) => true,
        (Literal::True, Literal::True) => true,
        (Literal::False, Literal::False) => true,
        (Literal::Number(a), Literal::Number(b)) => a@ == b@,
        (Literal::Binary(a), Literal::Binary(b)) => a@ == b@,
        (Literal::String(a), Literal::String(b)) => a@ == b@,
        (Literal::RegEx(a), Literal::RegEx(b)) => a@ == b@,
        (Literal::Template(a), Literal::Template(b)) => a@ == b@,
        _ => false,
    }
}

/// Two quasi lists are equal segment by segment.
pub open spec fn quasis_eq(x: Seq<Loc<String>>, y: Seq<Loc<String>>) -> bool {
    x.len() == y.len() && (forall|k: int| 0 <= k < x.len() ==> name_eq(#[trigger] x[k], y[k]))
}

/// The expressions behind two handles are structurally equal, provided
/// both handles stand below their bounds.
pub open spec fn expr_pair_eq(a: Seq<Loc<Node>>, p: ExprPtr, q: ExprPtr, bi: int, bj: int) -> bool
    decreases bi + bj, 0int,
{
    if (p.idx as int) < bi && (q.idx as int) < bj {
        expr_slot_eq(a, p.idx as int, q.idx as int)
    } else {
        false
    }
}

pub open spec fn stmt_pair_eq(a: Seq<Loc<Node>>, p: StmtPtr, q: StmtPtr, bi: int, bj: int) -> bool
    decreases bi + bj, 0int,
{
    if (p.idx as int) < bi && (q.idx as int) < bj {
        stmt_slot_eq(a, p.idx as int, q.idx as int)
    } else {
        false
    }
}

pub open spec fn pattern_pair_eq(
    a: Seq<Loc<Node>>,
    p: PatternPtr,
    q: PatternPtr,
    bi: int,
    bj: int,
) -> bool
    decreases bi + bj, 0int,
{
    if (p.idx as int) < bi && (q.idx as int) < bj {
        pattern_slot_eq(a, p.idx as int, q.idx as int)
    } else {
        false
    }
}

pub open spec fn property_pair_eq(
    a: Seq<Loc<Node>>,
    p: PropertyPtr,
    q: PropertyPtr,
    bi: int,
    bj: int,
) -> bool
    decreases bi + bj, 0int,
{
    if (p.idx as int) < bi && (q.idx as int) < bj {
        property_slot_eq(a, p.idx as int, q.idx as int)
    } else {
        false
    }
}

pub open spec fn key_pair_eq(
    a: Seq<Loc<Node>>,
    p: PropertyKeyPtr,
    q: PropertyKeyPtr,
    bi: int,
    bj: int,
) -> bool
    decreases bi + bj, 0int,
{
    if (p.idx as int) < bi && (q.idx as int) < bj {
        key_slot_eq(a, p.idx as int, q.idx as int)
    } else {
        false
    }
}

pub open spec fn opt_expr_pair_eq(
    a: Seq<Loc<Node>>,
    x: Option<ExprPtr>,
    y: Option<ExprPtr>,
    bi: int,
    bj: int,
) -> bool
    decreases bi + bj, 1int,
{
    match (x, y) {
        (Option::Some(p), Option::Some(q)) => expr_pair_eq(a, p, q, bi, bj),
        (Option::None, Option::None) => true,
        _ => false,
    }
}

pub open spec fn expr_list_pair_eq(
    a: Seq<Loc<Node>>,
    x: Seq<ExprPtr>,
    y: Seq<ExprPtr>,
    bi: int,
    bj: int,
) -> bool
    decreases bi + bj, 1int,
{
    x.len() == y.len() && (forall|k: int|
        0 <= k < x.len() ==> expr_pair_eq(a, #[trigger] x[k], y[k], bi, bj))
}

pub open spec fn stmt_list_pair_eq(
    a: Seq<Loc<Node>>,
    x: Seq<StmtPtr>,
    y: Seq<StmtPtr>,
    bi: int,
    bj: int,
) -> bool
    decreases bi + bj, 1int,
{
    x.len() == y.len() && (forall|k: int|
        0 <= k < x.len() ==> stmt_pair_eq(a, #[trigger] x[k], y[k], bi, bj))
}

pub open spec fn pattern_list_pair_eq(
    a: Seq<Loc<Node>>,
    x: Seq<PatternPtr>,
    y: Seq<PatternPtr>,
    bi: int,
    bj: int,
) -> bool
    decreases bi + bj, 1int,
{
    x.len() == y.len() && (forall|k: int|
        0 <= k < x.len() ==> pattern_pair_eq(a, #[trigger] x[k], y[k], bi, bj))
}

pub open spec fn property_list_pair_eq(
    a: Seq<Loc<Node>>,
    x: Seq<PropertyPtr>,
    y: Seq<PropertyPtr>,
    bi: int,
    bj: int,
) -> bool
    decreases bi + bj, 1int,
{
    x.len() == y.len() && (forall|k: int|
        0 <= k < x.len() ==> property_pair_eq(a, #[trigger] x[k], y[k], bi, bj))
}

pub open spec fn method_function_pair_eq(
    a: Seq<Loc<Node>>,
    x: MethodFunction,
    y: MethodFunction,
    bi: int,
    bj: int,
) -> bool
    decreases bi + bj, 2int,
{
    pattern_list_pair_eq(a, x.params@, y.params@, bi, bj) && stmt_list_pair_eq(
        a,
        x.body@,
        y.body@,
        bi,
        bj,
    )
}

pub open spec fn member_pair_eq(
    a: Seq<Loc<Node>>,
    x: ClassMember,
    y: ClassMember,
    bi: int,
    bj: int,
) -> bool
    decreases bi + bj, 3int,
{
    match (x, y) {
        (ClassMember::Error, ClassMember::Error) => true,
        (
            ClassMember::Method { key: k1, value: v1 },
            ClassMember::Method { key: k2, value: v2 },
        ) => key_pair_eq(a, k1, k2, bi, bj) && method_function_pair_eq(a, v1, v2, bi, bj),
        _ => false,
    }
}

pub open spec fn members_pair_eq(
    a: Seq<Loc<Node>>,
    x: Seq<ClassMember>,
    y: Seq<ClassMember>,
    bi: int,
    bj: int,
) -> bool
    decreases bi + bj, 4int,
{
    x.len() == y.len() && (forall|k: int|
        0 <= k < x.len() ==> member_pair_eq(a, #[trigger] x[k], y[k], bi, bj))
}

pub open spec fn declarator_pair_eq(
    a: Seq<Loc<Node>>,
    x: Declarator,
    y: Declarator,
    bi: int,
    bj: int,
) -> bool
    decreases bi + bj, 3int,
{
    pattern_pair_eq(a, x.name, y.name, bi, bj) && opt_expr_pair_eq(a, x.value, y.value, bi, bj)
}

pub open spec fn declarators_pair_eq(
    a: Seq<Loc<Node>>,
    x: Seq<Declarator>,
    y: Seq<Declarator>,
    bi: int,
    bj: int,
) -> bool
    decreases bi + bj, 4int,
{
    x.len() == y.len() && (forall|k: int|
        0 <= k < x.len() ==> declarator_pair_eq(a, #[trigger] x[k], y[k], bi, bj))
}

/// Compare two located names.
fn names_eq(x: &Loc<String>, y: &Loc<String>) -> (r: bool)
    ensures
        r == name_eq(*x, *y),
{
    x.start == y.start && x.end == y.end && x.item.eq(&y.item)
}

/// Compare two optional located names.
fn opt_names_eq(x: &Option<Loc<String>>, y: &Option<Loc<String>>) -> (r: bool)
    ensures
        r == opt_name_eq(*x, *y),
{
    match (x, y) {
        (Option::Some(a), Option::Some(b)) => names_eq(a, b),
        (Option::None, Option::None) => true,
        _ => false,
    }
}

/// Compare two literal tokens.
fn literals_eq(x: &Literal, y: &Literal) -> (r: bool)
    ensures
        r == literal_eq(*x, *y),
{
    match (x, y) {
        (Literal::Undefined, Literal::Undefined) => true,
        (Literal::Null, Literal::Null) => true,
        (Literal::True, Literal::True) => true,
        (Literal::False, Literal::False) => true,
        (Literal::Number(a), Literal::Number(b)) => a.eq(b),
        (Literal::Binary(a), Literal::Binary(b)) => a.eq(b),
        (Literal::String(a), Literal::String(b)) => a.eq(b),
        (Literal::RegEx(a), Literal::RegEx(b)) => a.eq(b),
        (Literal::Template(a), Literal::Template(b)) => a.eq(b),
        _ => false,
    }
}

/// Compare two quasi lists segment by segment.
fn quasi_lists_eq(x: &Vec<Loc<String>>, y: &Vec<Loc<String>>) -> (r: bool)
    ensures
        r == quasis_eq(x@, y@),
{
    if x.len() != y.len() {
        return false;
    }
    let mut k: usize = 0;
    while k < x.len()
        invariant
            x@.len() == y@.len(),
            k <= x@.len(),
            forall|m: int| 0 <= m < k ==> name_eq(#[trigger] x@[m], y@[m]),
        decreases x@.len() - k,
    {
        if !names_eq(&x[k], &y[k]) {
            proof {
                assert(!quasis_eq(x@, y@)) by {
                    if quasis_eq(x@, y@) {
                        assert(name_eq(x@[k as int], y@[k as int]));
                    }
                }
            }
            return false;
        }
        k = k + 1;
    }
    proof {
        assert(quasis_eq(x@, y@));
    }
    true
}

/// The located expressions in slots `i` and `j` are structurally equal.
pub open spec fn expr_slot_eq(a: Seq<Loc<Node>>, i: int, j: int) -> bool
    decreases i + j, 5int,
{
    if 0 <= i < a.len() && 0 <= j < a.len() {
        a[i].start == a[j].start && a[i].end == a[j].end && match (a[i].item, a[j].item) {
            (Node::Expr(e1), Node::Expr(e2)) => match (e1, e2) {
                (Expression::Error, Expression::Error) => true,
                (Expression::Void, Expression::Void) => true,
                (Expression::This(_), Expression::This(_)) => true,
                (Expression::Identifier(n1), Expression::Identifier(n2)) => n1@ == n2@,
                (Expression::Literal(l1), Expression::Literal(l2)) => literal_eq(l1, l2),
                (Expression::Sequence(s1), Expression::Sequence(s2)) => expr_list_pair_eq(
                    a,
                    s1.body@,
                    s2.body@,
                    i,
                    j,
                ),
                (Expression::Array(s1), Expression::Array(s2)) => expr_list_pair_eq(
                    a,
                    s1.body@,
                    s2.body@,
                    i,
                    j,
                ),
                (Expression::Member(m1), Expression::Member(m2)) => {
                    expr_pair_eq(a, m1.object, m2.object, i, j) && name_eq(
                        m1.property,
                        m2.property,
                    )
                },
                (Expression::ComputedMember(m1), Expression::ComputedMember(m2)) => {
                    expr_pair_eq(a, m1.object, m2.object, i, j) && expr_pair_eq(
                        a,
                        m1.property,
                        m2.property,
                        i,
                        j,
                    )
                },
                (Expression::Call(c1), Expression::Call(c2)) => {
                    expr_pair_eq(a, c1.callee, c2.callee, i, j) && expr_list_pair_eq(
                        a,
                        c1.arguments@,
                        c2.arguments@,
                        i,
                        j,
                    )
                },
                (Expression::Binary(b1), Expression::Binary(b2)) => {
                    b1.operator == b2.operator && expr_pair_eq(a, b1.left, b2.left, i, j)
                        && expr_pair_eq(a, b1.right, b2.right, i, j)
                },
                (Expression::Prefix(p1), Expression::Prefix(p2)) => {
                    p1.operator == p2.operator && expr_pair_eq(a, p1.operand, p2.operand, i, j)
                },
                (Expression::Postfix(p1), Expression::Postfix(p2)) => {
                    p1.operator == p2.operator && expr_pair_eq(a, p1.operand, p2.operand, i, j)
                },
                (Expression::Conditional(c1), Expression::Conditional(c2)) => {
                    expr_pair_eq(a, c1.test, c2.test, i, j) && expr_pair_eq(
                        a,
                        c1.consequent,
                        c2.consequent,
                        i,
                        j,
                    ) && expr_pair_eq(a, c1.alternate, c2.alternate, i, j)
                },
                (Expression::Template(t1), Expression::Template(t2)) => {
                    opt_expr_pair_eq(a, t1.tag, t2.tag, i, j) && expr_list_pair_eq(
                        a,
                        t1.expressions@,
                        t2.expressions@,
                        i,
                        j,
                    ) && quasis_eq(t1.quasis@, t2.quasis@)
                },
                (Expression::Spread(s1), Expression::Spread(s2)) => expr_pair_eq(
                    a,
                    s1.argument,
                    s2.argument,
                    i,
                    j,
                ),
                (Expression::Arrow(a1), Expression::Arrow(a2)) => {
                    pattern_list_pair_eq(a, a1.params@, a2.params@, i, j) && match (
                        a1.body,
                        a2.body,
                    ) {
                        (ArrowBody::Expression(p), ArrowBody::Expression(q)) => expr_pair_eq(
                            a,
                            p,
                            q,
                            i,
                            j,
                        ),
                        (ArrowBody::Block(b1), ArrowBody::Block(b2)) => stmt_list_pair_eq(
                            a,
                            b1@,
                            b2@,
                            i,
                            j,
                        ),
                        _ => false,
                    }
                },
                (Expression::Object(o1), Expression::Object(o2)) => property_list_pair_eq(
                    a,
                    o1.body@,
                    o2.body@,
                    i,
                    j,
                ),
                (Expression::Function(f1), Expression::Function(f2)) => {
                    opt_name_eq(f1.name, f2.name) && pattern_list_pair_eq(
                        a,
                        f1.params@,
                        f2.params@,
                        i,
                        j,
                    ) && stmt_list_pair_eq(a, f1.body@, f2.body@, i, j)
                },
                (Expression::Class(c1), Expression::Class(c2)) => {
                    opt_name_eq(c1.name, c2.name) && opt_expr_pair_eq(
                        a,
                        c1.extends,
                        c2.extends,
                        i,
                        j,
                    ) && members_pair_eq(a, c1.body@, c2.body@, i, j)
                },
                _ => false,
            },
            _ => false,
        }
    } else {
        false
    }
}

/// The located statements in slots `i` and `j` are structurally equal.
pub open spec fn stmt_slot_eq(a: Seq<Loc<Node>>, i: int, j: int) -> bool
    decreases i + j, 5int,
{
    if 0 <= i < a.len() && 0 <= j < a.len() {
        a[i].start == a[j].start && a[i].end == a[j].end && match (a[i].item, a[j].item) {
            (Node::Stmt(s1), Node::Stmt(s2)) => match (s1, s2) {
                (Statement::Error, Statement::Error) => true,
                (Statement::Empty, Statement::Empty) => true,
                (Statement::Expression(e1), Statement::Expression(e2)) => expr_pair_eq(
                    a,
                    e1,
                    e2,
                    i,
                    j,
                ),
                (Statement::Declaration(d1), Statement::Declaration(d2)) => {
                    d1.kind == d2.kind && declarators_pair_eq(
                        a,
                        d1.declarators@,
                        d2.declarators@,
                        i,
                        j,
                    )
                },
                (Statement::Return(r1), Statement::Return(r2)) => opt_expr_pair_eq(
                    a,
                    r1.value,
                    r2.value,
                    i,
                    j,
                ),
                (Statement::Block(b1), Statement::Block(b2)) => stmt_list_pair_eq(
                    a,
                    b1.body@,
                    b2.body@,
                    i,
                    j,
                ),
                (Statement::Function(f1), Statement::Function(f2)) => {
                    name_eq(f1.name, f2.name) && pattern_list_pair_eq(
                        a,
                        f1.params@,
                        f2.params@,
                        i,
                        j,
                    ) && stmt_list_pair_eq(a, f1.body@, f2.body@, i, j)
                },
                (Statement::Class(c1), Statement::Class(c2)) => {
                    name_eq(c1.name, c2.name) && opt_expr_pair_eq(a, c1.extends, c2.extends, i, j)
                        && members_pair_eq(a, c1.body@, c2.body@, i, j)
                },
                _ => false,
            },
            _ => false,
        }
    } else {
        false
    }
}

/// The located patterns in slots `i` and `j` are structurally equal.
pub open spec fn pattern_slot_eq(a: Seq<Loc<Node>>, i: int, j: int) -> bool
    decreases i + j, 5int,
{
    if 0 <= i < a.len() && 0 <= j < a.len() {
        a[i].start == a[j].start && a[i].end == a[j].end && match (a[i].item, a[j].item) {
            (Node::Pat(p1), Node::Pat(p2)) => match (p1, p2) {
                (Pattern::Void, Pattern::Void) => true,
                (Pattern::Identifier(n1), Pattern::Identifier(n2)) => n1@ == n2@,
                (
                    Pattern::ObjectPattern { properties: x },
                    Pattern::ObjectPattern { properties: y },
                ) => property_list_pair_eq(a, x@, y@, i, j),
                (
                    Pattern::ArrayPattern { elements: x },
                    Pattern::ArrayPattern { elements: y },
                ) => pattern_list_pair_eq(a, x@, y@, i, j),
                (
                    Pattern::RestElement { argument: x },
                    Pattern::RestElement { argument: y },
                ) => pattern_pair_eq(a, x, y, i, j),
                (
                    Pattern::AssignmentPattern { left: l1, right: r1 },
                    Pattern::AssignmentPattern { left: l2, right: r2 },
                ) => pattern_pair_eq(a, l1, l2, i, j) && expr_pair_eq(a, r1, r2, i, j),
                _ => false,
            },
            _ => false,
        }
    } else {
        false
    }
}

/// The located properties in slots `i` and `j` are structurally equal.
pub open spec fn property_slot_eq(a: Seq<Loc<Node>>, i: int, j: int) -> bool
    decreases i + j, 5int,
{
    if 0 <= i < a.len() && 0 <= j < a.len() {
        a[i].start == a[j].start && a[i].end == a[j].end && match (a[i].item, a[j].item) {
            (Node::Prop(p1), Node::Prop(p2)) => match (p1, p2) {
                (Property::Shorthand(n1), Property::Shorthand(n2)) => n1@ == n2@,
                (
                    Property::Literal { key: k1, value: v1 },
                    Property::Literal { key: k2, value: v2 },
                ) => key_pair_eq(a, k1, k2, i, j) && expr_pair_eq(a, v1, v2, i, j),
                (
                    Property::Method { key: k1, value: v1 },
                    Property::Method { key: k2, value: v2 },
                ) => key_pair_eq(a, k1, k2, i, j) && method_function_pair_eq(a, v1, v2, i, j),
                _ => false,
            },
            _ => false,
        }
    } else {
        false
    }
}

/// The located property keys in slots `i` and `j` are structurally equal.
pub open spec fn key_slot_eq(a: Seq<Loc<Node>>, i: int, j: int) -> bool
    decreases i + j, 5int,
{
    if 0 <= i < a.len() && 0 <= j < a.len() {
        a[i].start == a[j].start && a[i].end == a[j].end && match (a[i].item, a[j].item) {
            (Node::Key(k1), Node::Key(k2)) => match (k1, k2) {
                (PropertyKey::Computed(e1), PropertyKey::Computed(e2)) => expr_pair_eq(
                    a,
                    e1,
                    e2,
                    i,
                    j,
                ),
                (PropertyKey::Literal(n1), PropertyKey::Literal(n2)) => n1@ == n2@,
                (PropertyKey::Binary(n1), PropertyKey::Binary(n2)) => n1@ == n2@,
                _ => false,
            },
            _ => false,
        }
    } else {
        false
    }
}

/// Compare two expression lists element by element.
fn expr_lists_eq(
    a: &Arena,
    x: &Vec<ExprPtr>,
    y: &Vec<ExprPtr>,
    bi: Ghost<int>,
    bj: Ghost<int>,
) -> (r: bool)
    requires
        wf(a@),
        0 <= bi@ <= a@.len(),
        0 <= bj@ <= a@.len(),
        crate::ast::expr_list_bounded(x@, bi@),
        crate::ast::expr_list_bounded(y@, bj@),
    ensures
        r == expr_list_pair_eq(a@, x@, y@, bi@, bj@),
    decreases bi@ + bj@, 1int,
{
    if x.len() != y.len() {
        return false;
    }
    let mut k: usize = 0;
    while k < x.len()
        invariant
            wf(a@),
            0 <= bi@ <= a@.len(),
            0 <= bj@ <= a@.len(),
            crate::ast::expr_list_bounded(x@, bi@),
            crate::ast::expr_list_bounded(y@, bj@),
            x@.len() == y@.len(),
            k <= x@.len(),
            forall|m: int| 0 <= m < k ==> expr_pair_eq(a@, #[trigger] x@[m], y@[m], bi@, bj@),
        decreases x@.len() - k,
    {
        proof {
            assert(crate::ast::expr_ptr_bounded(x@[k as int], bi@));
            assert(crate::ast::expr_ptr_bounded(y@[k as int], bj@));
        }
        if !expr_eq(a, x[k], y[k]) {
            proof {
                assert(!expr_list_pair_eq(a@, x@, y@, bi@, bj@)) by {
                    if expr_list_pair_eq(a@, x@, y@, bi@, bj@) {
                        assert(expr_pair_eq(a@, x@[k as int], y@[k as int], bi@, bj@));
                    }
                }
            }
            return false;
        }
        k = k + 1;
    }
    proof {
        assert(expr_list_pair_eq(a@, x@, y@, bi@, bj@));
    }
    true
}

/// Compare two statement lists element by element.
fn stmt_lists_eq(
    a: &Arena,
    x: &Vec<StmtPtr>,
    y: &Vec<StmtPtr>,
    bi: Ghost<int>,
    bj: Ghost<int>,
) -> (r: bool)
    requires
        wf(a@),
        0 <= bi@ <= a@.len(),
        0 <= bj@ <= a@.len(),
        crate::ast::stmt_list_bounded(x@, bi@),
        crate::ast::stmt_list_bounded(y@, bj@),
    ensures
        r == stmt_list_pair_eq(a@, x@, y@, bi@, bj@),
    decreases bi@ + bj@, 1int,
{
    if x.len() != y.len() {
        return false;
    }
    let mut k: usize = 0;
    while k < x.len()
        invariant
            wf(a@),
            0 <= bi@ <= a@.len(),
            0 <= bj@ <= a@.len(),
            crate::ast::stmt_list_bounded(x@, bi@),
            crate::ast::stmt_list_bounded(y@, bj@),
            x@.len() == y@.len(),
            k <= x@.len(),
            forall|m: int| 0 <= m < k ==> stmt_pair_eq(a@, #[trigger] x@[m], y@[m], bi@, bj@),
        decreases x@.len() - k,
    {
        proof {
            assert(crate::ast::stmt_ptr_bounded(x@[k as int], bi@));
            assert(crate::ast::stmt_ptr_bounded(y@[k as int], bj@));
        }
        if !stmt_eq(a, x[k], y[k]) {
            proof {
                assert(!stmt_list_pair_eq(a@, x@, y@, bi@, bj@)) by {
                    if stmt_list_pair_eq(a@, x@, y@, bi@, bj@) {
                        assert(stmt_pair_eq(a@, x@[k as int], y@[k as int], bi@, bj@));
                    }
                }
            }
            return false;
        }
        k = k + 1;
    }
    proof {
        assert(stmt_list_pair_eq(a@, x@, y@, bi@, bj@));
    }
    true
}

/// Compare two pattern lists element by element.
fn pattern_lists_eq(
    a: &Arena,
    x: &Vec<PatternPtr>,
    y: &Vec<PatternPtr>,
    bi: Ghost<int>,
    bj: Ghost<int>,
) -> (r: bool)
    requires
        wf(a@),
        0 <= bi@ <= a@.len(),
        0 <= bj@ <= a@.len(),
        crate::ast::pattern_list_bounded(x@, bi@),
        crate::ast::pattern_list_bounded(y@, bj@),
    ensures
        r == pattern_list_pair_eq(a@, x@, y@, bi@, bj@),
    decreases bi@ + bj@, 1int,
{
    if x.len() != y.len() {
        return false;
    }
    let mut k: usize = 0;
    while k < x.len()
        invariant
            wf(a@),
            0 <= bi@ <= a@.len(),
            0 <= bj@ <= a@.len(),
            crate::ast::pattern_list_bounded(x@, bi@),
            crate::ast::pattern_list_bounded(y@, bj@),
            x@.len() == y@.len(),
            k <= x@.len(),
            forall|m: int| 0 <= m < k ==> pattern_pair_eq(a@, #[trigger] x@[m], y@[m], bi@, bj@),
        decreases x@.len() - k,
    {
        proof {
            assert(crate::ast::pattern_ptr_bounded(x@[k as int], bi@));
            assert(crate::ast::pattern_ptr_bounded(y@[k as int], bj@));
        }
        if !pattern_eq(a, x[k], y[k]) {
            proof {
                assert(!pattern_list_pair_eq(a@, x@, y@, bi@, bj@)) by {
                    if pattern_list_pair_eq(a@, x@, y@, bi@, bj@) {
                        assert(pattern_pair_eq(a@, x@[k as int], y@[k as int], bi@, bj@));
                    }
                }
            }
            return false;
        }
        k = k + 1;
    }
    proof {
        assert(pattern_list_pair_eq(a@, x@, y@, bi@, bj@));
    }
    true
}

/// Compare two property lists element by element.
fn property_lists_eq(
    a: &Arena,
    x: &Vec<PropertyPtr>,
    y: &Vec<PropertyPtr>,
    bi: Ghost<int>,
    bj: Ghost<int>,
) -> (r: bool)
    requires
        wf(a@),
        0 <= bi@ <= a@.len(),
        0 <= bj@ <= a@.len(),
        crate::ast::property_list_bounded(x@, bi@),
        crate::ast::property_list_bounded(y@, bj@),
    ensures
        r == property_list_pair_eq(a@, x@, y@, bi@, bj@),
    decreases bi@ + bj@, 1int,
{
    if x.len() != y.len() {
        return false;
    }
    let mut k: usize = 0;
    while k < x.len()
        invariant
            wf(a@),
            0 <= bi@ <= a@.len(),
            0 <= bj@ <= a@.len(),
            crate::ast::property_list_bounded(x@, bi@),
            crate::ast::property_list_bounded(y@, bj@),
            x@.len() == y@.len(),
            k <= x@.len(),
            forall|m: int| 0 <= m < k ==> property_pair_eq(a@, #[trigger] x@[m], y@[m], bi@, bj@),
        decreases x@.len() - k,
    {
        proof {
            assert(crate::ast::property_ptr_bounded(x@[k as int], bi@));
            assert(crate::ast::property_ptr_bounded(y@[k as int], bj@));
        }
        if !property_eq(a, x[k], y[k]) {
            proof {
                assert(!property_list_pair_eq(a@, x@, y@, bi@, bj@)) by {
                    if property_list_pair_eq(a@, x@, y@, bi@, bj@) {
                        assert(property_pair_eq(a@, x@[k as int], y@[k as int], bi@, bj@));
                    }
                }
            }
            return false;
        }
        k = k + 1;
    }
    proof {
        assert(property_list_pair_eq(a@, x@, y@, bi@, bj@));
    }
    true
}

/// Compare two optional expression children.
fn opt_exprs_eq(
    a: &Arena,
    x: &Option<ExprPtr>,
    y: &Option<ExprPtr>,
    bi: Ghost<int>,
    bj: Ghost<int>,
) -> (r: bool)
    requires
        wf(a@),
        0 <= bi@ <= a@.len(),
        0 <= bj@ <= a@.len(),
        crate::ast::opt_expr_bounded(*x, bi@),
        crate::ast::opt_expr_bounded(*y, bj@),
    ensures
        r == opt_expr_pair_eq(a@, *x, *y, bi@, bj@),
    decreases bi@ + bj@, 1int,
{
    match (x, y) {
        (Option::Some(p), Option::Some(q)) => expr_eq(a, *p, *q),
        (Option::None, Option::None) => true,
        _ => false,
    }
}

/// Compare the parameters and bodies of two methods.
fn method_functions_eq(
    a: &Arena,
    x: &MethodFunction,
    y: &MethodFunction,
    bi: Ghost<int>,
    bj: Ghost<int>,
) -> (r: bool)
    requires
        wf(a@),
        0 <= bi@ <= a@.len(),
        0 <= bj@ <= a@.len(),
        crate::ast::method_function_bounded(*x, bi@),
        crate::ast::method_function_bounded(*y, bj@),
    ensures
        r == method_function_pair_eq(a@, *x, *y, bi@, bj@),
    decreases bi@ + bj@, 2int,
{
    pattern_lists_eq(a, &x.params, &y.params, bi, bj) && stmt_lists_eq(
        a,
        &x.body,
        &y.body,
        bi,
        bj,
    )
}

/// Compare two class bodies member by member.
fn members_eq(
    a: &Arena,
    x: &Vec<ClassMember>,
    y: &Vec<ClassMember>,
    bi: Ghost<int>,
    bj: Ghost<int>,
) -> (r: bool)
    requires
        wf(a@),
        0 <= bi@ <= a@.len(),
        0 <= bj@ <= a@.len(),
        crate::ast::class_members_bounded(x@, bi@),
        crate::ast::class_members_bounded(y@, bj@),
    ensures
        r == members_pair_eq(a@, x@, y@, bi@, bj@),
    decreases bi@ + bj@, 4int,
{
    if x.len() != y.len() {
        return false;
    }
    let mut k: usize = 0;
    while k < x.len()
        invariant
            wf(a@),
            0 <= bi@ <= a@.len(),
            0 <= bj@ <= a@.len(),
            crate::ast::class_members_bounded(x@, bi@),
            crate::ast::class_members_bounded(y@, bj@),
            x@.len() == y@.len(),
            k <= x@.len(),
            forall|m: int| 0 <= m < k ==> member_pair_eq(a@, #[trigger] x@[m], y@[m], bi@, bj@),
        decreases x@.len() - k,
    {
        proof {
            assert(crate::ast::class_member_bounded(x@[k as int], bi@));
            assert(crate::ast::class_member_bounded(y@[k as int], bj@));
        }
        let here = match (&x[k], &y[k]) {
            (ClassMember::Error, ClassMember::Error) => true,
            (
                ClassMember::Method { key: k1, value: v1 },
                ClassMember::Method { key: k2, value: v2 },
            ) => key_eq(a, *k1, *k2) && method_functions_eq(a, v1, v2, bi, bj),
            _ => false,
        };
        if !here {
            proof {
                assert(!members_pair_eq(a@, x@, y@, bi@, bj@)) by {
                    if members_pair_eq(a@, x@, y@, bi@, bj@) {
                        assert(member_pair_eq(a@, x@[k as int], y@[k as int], bi@, bj@));
                    }
                }
            }
            return false;
        }
        k = k + 1;
    }
    proof {
        assert(members_pair_eq(a@, x@, y@, bi@, bj@));
    }
    true
}

/// Compare two declarator lists element by element.
fn declarators_eq(
    a: &Arena,
    x: &Vec<Declarator>,
    y: &Vec<Declarator>,
    bi: Ghost<int>,
    bj: Ghost<int>,
) -> (r: bool)
    requires
        wf(a@),
        0 <= bi@ <= a@.len(),
        0 <= bj@ <= a@.len(),
        crate::ast::declarators_bounded(x@, bi@),
        crate::ast::declarators_bounded(y@, bj@),
    ensures
        r == declarators_pair_eq(a@, x@, y@, bi@, bj@),
    decreases bi@ + bj@, 4int,
{
    if x.len() != y.len() {
        return false;
    }
    let mut k: usize = 0;
    while k < x.len()
        invariant
            wf(a@),
            0 <= bi@ <= a@.len(),
            0 <= bj@ <= a@.len(),
            crate::ast::declarators_bounded(x@, bi@),
            crate::ast::declarators_bounded(y@, bj@),
            x@.len() == y@.len(),
            k <= x@.len(),
            forall|m: int| 0 <= m < k ==> declarator_pair_eq(a@, #[trigger] x@[m], y@[m], bi@, bj@),
        decreases x@.len() - k,
    {
        proof {
            assert(crate::ast::declarator_bounded(x@[k as int], bi@));
            assert(crate::ast::declarator_bounded(y@[k as int], bj@));
        }
        let dx = &x[k];
        let dy = &y[k];
        let here = pattern_eq(a, dx.name, dy.name) && opt_exprs_eq(a, &dx.value, &dy.value, bi, bj);
        if !here {
            proof {
                assert(!declarators_pair_eq(a@, x@, y@, bi@, bj@)) by {
                    if declarators_pair_eq(a@, x@, y@, bi@, bj@) {
                        assert(declarator_pair_eq(a@, x@[k as int], y@[k as int], bi@, bj@));
                    }
                }
            }
            return false;
        }
        k = k + 1;
    }
    proof {
        assert(declarators_pair_eq(a@, x@, y@, bi@, bj@));
    }
    true
}

/// Compare the located expressions two handles reference, structurally.
pub fn expr_eq(a: &Arena, p: ExprPtr, q: ExprPtr) -> (r: bool)
    requires
        wf(a@),
        (p.idx as int) < a@.len(),
        (q.idx as int) < a@.len(),
    ensures
        r == expr_slot_eq(a@, p.idx as int, q.idx as int),
    decreases p.idx + q.idx, 5int,
{
    let ghost i = p.idx as int;
    let ghost j = q.idx as int;
    proof {
        assert(node_wf_at(a@[i].item, i));
        assert(node_wf_at(a@[j].item, j));
    }
    if a.nodes[p.idx].start != a.nodes[q.idx].start || a.nodes[p.idx].end != a.nodes[q.idx].end {
        return false;
    }
    match (&a.nodes[p.idx].item, &a.nodes[q.idx].item) {
        (Node::Expr(e1), Node::Expr(e2)) => match (e1, e2) {
            (Expression::Error, Expression::Error) => true,
            (Expression::Void, Expression::Void) => true,
            (Expression::This(_), Expression::This(_)) => true,
            (Expression::Identifier(n1), Expression::Identifier(n2)) => n1.eq(n2),
            (Expression::Literal(l1), Expression::Literal(l2)) => literals_eq(l1, l2),
            (Expression::Sequence(s1), Expression::Sequence(s2)) => expr_lists_eq(
                a,
                &s1.body,
                &s2.body,
                Ghost(i),
                Ghost(j),
            ),
            (Expression::Array(s1), Expression::Array(s2)) => expr_lists_eq(
                a,
                &s1.body,
                &s2.body,
                Ghost(i),
                Ghost(j),
            ),
            (Expression::Member(m1), Expression::Member(m2)) => {
                expr_eq(a, m1.object, m2.object) && names_eq(&m1.property, &m2.property)
            },
            (Expression::ComputedMember(m1), Expression::ComputedMember(m2)) => {
                expr_eq(a, m1.object, m2.object) && expr_eq(a, m1.property, m2.property)
            },
            (Expression::Call(c1), Expression::Call(c2)) => {
                expr_eq(a, c1.callee, c2.callee) && expr_lists_eq(
                    a,
                    &c1.arguments,
                    &c2.arguments,
                    Ghost(i),
                    Ghost(j),
                )
            },
            (Expression::Binary(b1), Expression::Binary(b2)) => {
                b1.operator == b2.operator && expr_eq(a, b1.left, b2.left) && expr_eq(
                    a,
                    b1.right,
                    b2.right,
                )
            },
            (Expression::Prefix(p1), Expression::Prefix(p2)) => {
                p1.operator == p2.operator && expr_eq(a, p1.operand, p2.operand)
            },
            (Expression::Postfix(p1), Expression::Postfix(p2)) => {
                p1.operator == p2.operator && expr_eq(a, p1.operand, p2.operand)
            },
            (Expression::Conditional(c1), Expression::Conditional(c2)) => {
                expr_eq(a, c1.test, c2.test) && expr_eq(a, c1.consequent, c2.consequent)
                    && expr_eq(a, c1.alternate, c2.alternate)
            },
            (Expression::Template(t1), Expression::Template(t2)) => {
                opt_exprs_eq(a, &t1.tag, &t2.tag, Ghost(i), Ghost(j)) && expr_lists_eq(
                    a,
                    &t1.expressions,
                    &t2.expressions,
                    Ghost(i),
                    Ghost(j),
                ) && quasi_lists_eq(&t1.quasis, &t2.quasis)
            },
            (Expression::Spread(s1), Expression::Spread(s2)) => expr_eq(
                a,
                s1.argument,
                s2.argument,
            ),
            (Expression::Arrow(a1), Expression::Arrow(a2)) => {
                pattern_lists_eq(a, &a1.params, &a2.params, Ghost(i), Ghost(j)) && match (
                    &a1.body,
                    &a2.body,
                ) {
                    (ArrowBody::Expression(x), ArrowBody::Expression(y)) => expr_eq(a, *x, *y),
                    (ArrowBody::Block(b1), ArrowBody::Block(b2)) => stmt_lists_eq(
                        a,
                        b1,
                        b2,
                        Ghost(i),
                        Ghost(j),
                    ),
                    _ => false,
                }
            },
            (Expression::Object(o1), Expression::Object(o2)) => property_lists_eq(
                a,
                &o1.body,
                &o2.body,
                Ghost(i),
                Ghost(j),
            ),
            (Expression::Function(f1), Expression::Function(f2)) => {
                opt_names_eq(&f1.name, &f2.name) && pattern_lists_eq(
                    a,
                    &f1.params,
                    &f2.params,
                    Ghost(i),
                    Ghost(j),
                ) && stmt_lists_eq(a, &f1.body, &f2.body, Ghost(i), Ghost(j))
            },
            (Expression::Class(c1), Expression::Class(c2)) => {
                opt_names_eq(&c1.name, &c2.name) && opt_exprs_eq(
                    a,
                    &c1.extends,
                    &c2.extends,
                    Ghost(i),
                    Ghost(j),
                ) && members_eq(a, &c1.body, &c2.body, Ghost(i), Ghost(j))
            },
            _ => false,
        },
        _ => false,
    }
}

/// Compare the located statements two handles reference, structurally.
pub fn stmt_eq(a: &Arena, p: StmtPtr, q: StmtPtr) -> (r: bool)
    requires
        wf(a@),
        (p.idx as int) < a@.len(),
        (q.idx as int) < a@.len(),
    ensures
        r == stmt_slot_eq(a@, p.idx as int, q.idx as int),
    decreases p.idx + q.idx, 5int,
{
    let ghost i = p.idx as int;
    let ghost j = q.idx as int;
    proof {
        assert(node_wf_at(a@[i].item, i));
        assert(node_wf_at(a@[j].item, j));
    }
    if a.nodes[p.idx].start != a.nodes[q.idx].start || a.nodes[p.idx].end != a.nodes[q.idx].end {
        return false;
    }
    match (&a.nodes[p.idx].item, &a.nodes[q.idx].item) {
        (Node::Stmt(s1), Node::Stmt(s2)) => match (s1, s2) {
            (Statement::Error, Statement::Error) => true,
            (Statement::Empty, Statement::Empty) => true,
            (Statement::Expression(e1), Statement::Expression(e2)) => expr_eq(a, *e1, *e2),
            (Statement::Declaration(d1), Statement::Declaration(d2)) => {
                d1.kind == d2.kind && declarators_eq(
                    a,
                    &d1.declarators,
                    &d2.declarators,
                    Ghost(i),
                    Ghost(j),
                )
            },
            (Statement::Return(r1), Statement::Return(r2)) => opt_exprs_eq(
                a,
                &r1.value,
                &r2.value,
                Ghost(i),
                Ghost(j),
            ),
            (Statement::Block(b1), Statement::Block(b2)) => stmt_lists_eq(
                a,
                &b1.body,
                &b2.body,
                Ghost(i),
                Ghost(j),
            ),
            (Statement::Function(f1), Statement::Function(f2)) => {
                names_eq(&f1.name, &f2.name) && pattern_lists_eq(
                    a,
                    &f1.params,
                    &f2.params,
                    Ghost(i),
                    Ghost(j),
                ) && stmt_lists_eq(a, &f1.body, &f2.body, Ghost(i), Ghost(j))
            },
            (Statement::Class(c1), Statement::Class(c2)) => {
                names_eq(&c1.name, &c2.name) && opt_exprs_eq(
                    a,
                    &c1.extends,
                    &c2.extends,
                    Ghost(i),
                    Ghost(j),
                ) && members_eq(a, &c1.body, &c2.body, Ghost(i), Ghost(j))
            },
            _ => false,
        },
        _ => false,
    }
}

/// Compare the located patterns two handles reference, structurally.
pub fn pattern_eq(a: &Arena, p: PatternPtr, q: PatternPtr) -> (r: bool)
    requires
        wf(a@),
        (p.idx as int) < a@.len(),
        (q.idx as int) < a@.len(),
    ensures
        r == pattern_slot_eq(a@, p.idx as int, q.idx as int),
    decreases p.idx + q.idx, 5int,
{
    let ghost i = p.idx as int;
    let ghost j = q.idx as int;
    proof {
        assert(node_wf_at(a@[i].item, i));
        assert(node_wf_at(a@[j].item, j));
    }
    if a.nodes[p.idx].start != a.nodes[q.idx].start || a.nodes[p.idx].end != a.nodes[q.idx].end {
        return false;
    }
    match (&a.nodes[p.idx].item, &a.nodes[q.idx].item) {
        (Node::Pat(p1), Node::Pat(p2)) => match (p1, p2) {
            (Pattern::Void, Pattern::Void) => true,
            (Pattern::Identifier(n1), Pattern::Identifier(n2)) => n1.eq(n2),
            (
                Pattern::ObjectPattern { properties: x },
                Pattern::ObjectPattern { properties: y },
            ) => property_lists_eq(a, x, y, Ghost(i), Ghost(j)),
            (
                Pattern::ArrayPattern { elements: x },
                Pattern::ArrayPattern { elements: y },
            ) => pattern_lists_eq(a, x, y, Ghost(i), Ghost(j)),
            (
                Pattern::RestElement { argument: x },
                Pattern::RestElement { argument: y },
            ) => pattern_eq(a, *x, *y),
            (
                Pattern::AssignmentPattern { left: l1, right: r1 },
                Pattern::AssignmentPattern { left: l2, right: r2 },
            ) => pattern_eq(a, *l1, *l2) && expr_eq(a, *r1, *r2),
            _ => false,
        },
        _ => false,
    }
}

/// Compare the located properties two handles reference, structurally.
pub fn property_eq(a: &Arena, p: PropertyPtr, q: PropertyPtr) -> (r: bool)
    requires
        wf(a@),
        (p.idx as int) < a@.len(),
        (q.idx as int) < a@.len(),
    ensures
        r == property_slot_eq(a@, p.idx as int, q.idx as int),
    decreases p.idx + q.idx, 5int,
{
    let ghost i = p.idx as int;
    let ghost j = q.idx as int;
    proof {
        assert(node_wf_at(a@[i].item, i));
        assert(node_wf_at(a@[j].item, j));
    }
    if a.nodes[p.idx].start != a.nodes[q.idx].start || a.nodes[p.idx].end != a.nodes[q.idx].end {
        return false;
    }
    match (&a.nodes[p.idx].item, &a.nodes[q.idx].item) {
        (Node::Prop(p1), Node::Prop(p2)) => match (p1, p2) {
            (Property::Shorthand(n1), Property::Shorthand(n2)) => n1.eq(n2),
            (
                Property::Literal { key: k1, value: v1 },
                Property::Literal { key: k2, value: v2 },
            ) => key_eq(a, *k1, *k2) && expr_eq(a, *v1, *v2),
            (
                Property::Method { key: k1, value: v1 },
                Property::Method { key: k2, value: v2 },
            ) => key_eq(a, *k1, *k2) && method_functions_eq(a, v1, v2, Ghost(i), Ghost(j)),
            _ => false,
        },
        _ => false,
    }
}

/// Compare the located property keys two handles reference, structurally.
pub fn key_eq(a: &Arena, p: PropertyKeyPtr, q: PropertyKeyPtr) -> (r: bool)
    requires
        wf(a@),
        (p.idx as int) < a@.len(),
        (q.idx as int) < a@.len(),
    ensures
        r == key_slot_eq(a@, p.idx as int, q.idx as int),
    decreases p.idx + q.idx, 5int,
{
    let ghost i = p.idx as int;
    let ghost j = q.idx as int;
    proof {
        assert(node_wf_at(a@[i].item, i));
        assert(node_wf_at(a@[j].item, j));
    }
    if a.nodes[p.idx].start != a.nodes[q.idx].start || a.nodes[p.idx].end != a.nodes[q.idx].end {
        return false;
    }
    match (&a.nodes[p.idx].item, &a.nodes[q.idx].item) {
        (Node::Key(k1), Node::Key(k2)) => match (k1, k2) {
            (PropertyKey::Computed(e1), PropertyKey::Computed(e2)) => expr_eq(a, *e1, *e2),
            (PropertyKey::Literal(n1), PropertyKey::Literal(n2)) => n1.eq(n2),
            (PropertyKey::Binary(n1), PropertyKey::Binary(n2)) => n1.eq(n2),
            _ => false,
        },
        _ => false,
    }
}

} // verus!
