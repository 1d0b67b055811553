//! The traversal engine: a depth-first, pre-order walk of a well-formed
//! arena that reports scope and reference events to a visitor.
//!
//! The exact sequence of events a walk produces is defined by the
//! `*_events` specification functions below, and every traversal function
//! ensures that it appends precisely that sequence to its visitor's
//! history. A visitor is any type implementing [`ScopeVisitor`]; its
//! callbacks are infallible by contract and cannot abort the walk, so an
//! analysis that wants to stop must record that in its own state.
//!
//! Scope-kind assignment: a block statement opens a `Block` scope; a
//! function declaration, function expression or method body opens a
//! `Function` scope; an empty class body opens no scope at all. A named
//! function or class declaration declares its own name in the enclosing
//! scope, while the equivalent expression form declares no name.

use vstd::prelude::*;
use crate::ast::Arena;
use crate::ast::ArrowBody;
use crate::ast::ClassMember;
use crate::ast::Declarator;
use crate::ast::Expression;
use crate::ast::ExprPtr;
use crate::ast::Loc;
use crate::ast::Module;
use crate::ast::Node;
use crate::ast::Pattern;
use crate::ast::PatternPtr;
use crate::ast::Property;
use crate::ast::PropertyKey;
use crate::ast::PropertyKeyPtr;
use crate::ast::PropertyPtr;
use crate::ast::Statement;
use crate::ast::StmtPtr;
use crate::ast::class_members_bounded;
use crate::ast::declarators_bounded;
use crate::ast::expr_list_bounded;
use crate::ast::expr_ptr_bounded;
use crate::ast::key_ptr_bounded;
use crate::ast::module_wf;
use crate::ast::node_wf_at;
use crate::ast::opt_expr_bounded;
use crate::ast::pattern_list_bounded;
use crate::ast::pattern_ptr_bounded;
use crate::ast::property_list_bounded;
use crate::ast::property_ptr_bounded;
use crate::ast::stmt_list_bounded;
use crate::ast::stmt_ptr_bounded;
use crate::ast::wf;

verus! {

/// The kind of lexical scope a construct introduces.
#[derive(Debug, Clone, Copy, PartialEq, Eq, Structural)]
pub enum ScopeKind {
    Function,
    Block,
}

/// One observable callback of a traversal, in specification form: entering
/// a statement list, entering or leaving a scope, or classifying an
/// identifier as a use or a declaration.
pub enum ScopeEvent {
    StatementList,
    EnterScope(ScopeKind),
    LeaveScope,
    Use(Seq<char>),
    Declare(Seq<char>),
}

/// A visitor carried through a depth-first walk. The `events` history is
/// the visitor's view of everything it has been told, in order; each
/// callback appends exactly its own event. The visitor owns whatever
/// further state it accumulates; the engine never copies it, so updates
/// made in one callback are visible to every later one.
pub trait ScopeVisitor: Sized {
    /// Everything this visitor has been told so far, oldest first.
    spec fn events(&self) -> Seq<ScopeEvent>;

    /// A new statement sequence begins: a module body, block body or
    /// function body.
    fn on_statement_list(&mut self)
        ensures
            final(self).events() == old(self).events().push(ScopeEvent::StatementList),
    ;

    /// A new scope of the given kind has been entered.
    fn on_enter_scope(&mut self, kind: ScopeKind)
        ensures
            final(self).events() == old(self).events().push(ScopeEvent::EnterScope(kind)),
    ;

    /// The current scope ends.
    fn on_leave_scope(&mut self)
        ensures
            final(self).events() == old(self).events().push(ScopeEvent::LeaveScope),
    ;

    /// An identifier was used as a value in the current scope.
    fn on_reference_use(&mut self, ident: &str)
        ensures
            final(self).events() == old(self).events().push(ScopeEvent::Use(ident@)),
    ;

    /// An identifier was declared as a binding in the current scope.
    fn on_reference_declaration(&mut self, ident: &str)
        ensures
            final(self).events() == old(self).events().push(ScopeEvent::Declare(ident@)),
    ;
}

/// Events of the expression in slot `i`, children in source order.
pub open spec fn expr_events(a: Seq<Loc<Node>>, i: int) -> Seq<ScopeEvent>
    decreases i, 9int, 0int,
{
    if 0 <= i < a.len() {
        match a[i].item {
            Node::Expr(e) => match e {
                Expression::Error => Seq::empty(),
                Expression::Void => Seq::empty(),
                Expression::This(_) => Seq::empty(),
                Expression::Identifier(name) => seq![ScopeEvent::Use(name@)],
                Expression::Literal(_) => Seq::empty(),
                Expression::Sequence(s) => expr_list_events(a, s.body@, i),
                Expression::Array(s) => expr_list_events(a, s.body@, i),
                Expression::Member(m) => expr_ptr_events(a, m.object, i),
                Expression::ComputedMember(m) => {
                    expr_ptr_events(a, m.object, i) + expr_ptr_events(a, m.property, i)
                },
                Expression::Call(c) => {
                    expr_ptr_events(a, c.callee, i) + expr_list_events(a, c.arguments@, i)
                },
                Expression::Binary(b) => {
                    expr_ptr_events(a, b.left, i) + expr_ptr_events(a, b.right, i)
                },
                Expression::Prefix(p) => expr_ptr_events(a, p.operand, i),
                Expression::Postfix(p) => expr_ptr_events(a, p.operand, i),
                Expression::Conditional(c) => {
                    expr_ptr_events(a, c.test, i) + expr_ptr_events(a, c.consequent, i)
                        + expr_ptr_events(a, c.alternate, i)
                },
                Expression::Template(t) => {
                    opt_expr_events(a, t.tag, i) + expr_list_events(a, t.expressions@, i)
                },
                Expression::Spread(s) => expr_ptr_events(a, s.argument, i),
                Expression::Arrow(arr) => {
                    pattern_list_events(a, arr.params@, i) + match arr.body {
                        ArrowBody::Expression(p) => expr_ptr_events(a, p, i),
                        ArrowBody::Block(b) => {
                            seq![ScopeEvent::StatementList] + stmt_seq_events(a, b@, i)
                        },
                    }
                },
                Expression::Object(o) => property_list_events(a, o.body@, i),
                Expression::Function(f) => function_events(a, f.params@, f.body@, i),
                Expression::Class(c) => {
                    opt_expr_events(a, c.extends, i) + class_member_events(a, c.body@, i)
                },
            },
            _ => Seq::empty(),
        }
    } else {
        Seq::empty()
    }
}

/// Events of the statement in slot `i`.
pub open spec fn stmt_events(a: Seq<Loc<Node>>, i: int) -> Seq<ScopeEvent>
    decreases i, 9int, 0int,
{
    if 0 <= i < a.len() {
        match a[i].item {
            Node::Stmt(s) => match s {
                Statement::Error => Seq::empty(),
                Statement::Empty => Seq::empty(),
                Statement::Expression(p) => expr_ptr_events(a, p, i),
                Statement::Declaration(d) => declarator_events(a, d.declarators@, i),
                Statement::Return(r) => opt_expr_events(a, r.value, i),
                Statement::Block(b) => {
                    seq![ScopeEvent::EnterScope(ScopeKind::Block), ScopeEvent::StatementList]
                        + stmt_seq_events(a, b.body@, i) + seq![ScopeEvent::LeaveScope]
                },
                Statement::Function(f) => {
                    seq![ScopeEvent::Declare(f.name.item@)]
                        + function_events(a, f.params@, f.body@, i)
                },
                Statement::Class(c) => {
                    seq![ScopeEvent::Declare(c.name.item@)] + opt_expr_events(a, c.extends, i)
                        + class_member_events(a, c.body@, i)
                },
            },
            _ => Seq::empty(),
        }
    } else {
        Seq::empty()
    }
}

/// Events of the pattern in slot `i`: a plain identifier is a declaration.
pub open spec fn pattern_events(a: Seq<Loc<Node>>, i: int) -> Seq<ScopeEvent>
    decreases i, 9int, 0int,
{
    if 0 <= i < a.len() {
        match a[i].item {
            Node::Pat(p) => match p {
                Pattern::Void => Seq::empty(),
                Pattern::Identifier(name) => seq![ScopeEvent::Declare(name@)],
                Pattern::ObjectPattern { properties } => property_list_events(a, properties@, i),
                Pattern::ArrayPattern { elements } => pattern_list_events(a, elements@, i),
                Pattern::RestElement { argument } => pattern_ptr_events(a, argument, i),
                Pattern::AssignmentPattern { left, right } => {
                    pattern_ptr_events(a, left, i) + expr_ptr_events(a, right, i)
                },
            },
            _ => Seq::empty(),
        }
    } else {
        Seq::empty()
    }
}

/// Events of the object-literal property in slot `i`: a shorthand property
/// is a use of the named binding, and a method body is a function scope.
pub open spec fn property_events(a: Seq<Loc<Node>>, i: int) -> Seq<ScopeEvent>
    decreases i, 9int, 0int,
{
    if 0 <= i < a.len() {
        match a[i].item {
            Node::Prop(p) => match p {
                Property::Shorthand(name) => seq![ScopeEvent::Use(name@)],
                Property::Literal { key, value } => {
                    key_ptr_events(a, key, i) + expr_ptr_events(a, value, i)
                },
                Property::Method { key, value } => {
                    key_ptr_events(a, key, i) + function_events(a, value.params@, value.body@, i)
                },
            },
            _ => Seq::empty(),
        }
    } else {
        Seq::empty()
    }
}

/// Events of the property key in slot `i`: only a computed key holds an
/// expression to walk.
pub open spec fn key_events(a: Seq<Loc<Node>>, i: int) -> Seq<ScopeEvent>
    decreases i, 9int, 0int,
{
    if 0 <= i < a.len() {
        match a[i].item {
            Node::Key(k) => match k {
                PropertyKey::Computed(e) => expr_ptr_events(a, e, i),
                PropertyKey::Literal(_) => Seq::empty(),
                PropertyKey::Binary(_) => Seq::empty(),
            },
            _ => Seq::empty(),
        }
    } else {
        Seq::empty()
    }
}

/// Events of one expression handle, provided it stands below `bound`.
pub open spec fn expr_ptr_events(a: Seq<Loc<Node>>, p: ExprPtr, bound: int) -> Seq<ScopeEvent>
    decreases bound, 4int, 0int,
{
    if (p.idx as int) < bound {
        expr_events(a, p.idx as int)
    } else {
        Seq::empty()
    }
}

pub open spec fn stmt_ptr_events(a: Seq<Loc<Node>>, p: StmtPtr, bound: int) -> Seq<ScopeEvent>
    decreases bound, 4int, 0int,
{
    if (p.idx as int) < bound {
        stmt_events(a, p.idx as int)
    } else {
        Seq::empty()
    }
}

pub open spec fn pattern_ptr_events(a: Seq<Loc<Node>>, p: PatternPtr, bound: int) -> Seq<
    ScopeEvent,
>
    decreases bound, 4int, 0int,
{
    if (p.idx as int) < bound {
        pattern_events(a, p.idx as int)
    } else {
        Seq::empty()
    }
}

pub open spec fn property_ptr_events(a: Seq<Loc<Node>>, p: PropertyPtr, bound: int) -> Seq<
    ScopeEvent,
>
    decreases bound, 4int, 0int,
{
    if (p.idx as int) < bound {
        property_events(a, p.idx as int)
    } else {
        Seq::empty()
    }
}

pub open spec fn key_ptr_events(a: Seq<Loc<Node>>, p: PropertyKeyPtr, bound: int) -> Seq<
    ScopeEvent,
>
    decreases bound, 4int, 0int,
{
    if (p.idx as int) < bound {
        key_events(a, p.idx as int)
    } else {
        Seq::empty()
    }
}

/// Events of an optional expression child.
pub open spec fn opt_expr_events(a: Seq<Loc<Node>>, o: Option<ExprPtr>, bound: int) -> Seq<
    ScopeEvent,
>
    decreases bound, 4int, 1int,
{
    match o {
        Option::Some(p) => expr_ptr_events(a, p, bound),
        Option::None => Seq::empty(),
    }
}

/// Events of a list of expression children, in source order.
pub open spec fn expr_list_events(a: Seq<Loc<Node>>, l: Seq<ExprPtr>, bound: int) -> Seq<
    ScopeEvent,
>
    decreases bound, 4int, l.len() + 2,
{
    if l.len() == 0 {
        Seq::empty()
    } else {
        expr_list_events(a, l.drop_last(), bound) + expr_ptr_events(a, l.last(), bound)
    }
}

pub open spec fn stmt_seq_events(a: Seq<Loc<Node>>, l: Seq<StmtPtr>, bound: int) -> Seq<
    ScopeEvent,
>
    decreases bound, 4int, l.len() + 2,
{
    if l.len() == 0 {
        Seq::empty()
    } else {
        stmt_seq_events(a, l.drop_last(), bound) + stmt_ptr_events(a, l.last(), bound)
    }
}

pub open spec fn pattern_list_events(a: Seq<Loc<Node>>, l: Seq<PatternPtr>, bound: int) -> Seq<
    ScopeEvent,
>
    decreases bound, 4int, l.len() + 2,
{
    if l.len() == 0 {
        Seq::empty()
    } else {
        pattern_list_events(a, l.drop_last(), bound) + pattern_ptr_events(a, l.last(), bound)
    }
}

pub open spec fn property_list_events(a: Seq<Loc<Node>>, l: Seq<PropertyPtr>, bound: int) -> Seq<
    ScopeEvent,
>
    decreases bound, 4int, l.len() + 2,
{
    if l.len() == 0 {
        Seq::empty()
    } else {
        property_list_events(a, l.drop_last(), bound) + property_ptr_events(a, l.last(), bound)
    }
}

/// Events of a function-like construct: one `Function` scope around the
/// parameters and the body's statement list.
pub open spec fn function_events(
    a: Seq<Loc<Node>>,
    params: Seq<PatternPtr>,
    body: Seq<StmtPtr>,
    bound: int,
) -> Seq<ScopeEvent>
    decreases bound, 5int, 0int,
{
    seq![ScopeEvent::EnterScope(ScopeKind::Function)] + pattern_list_events(a, params, bound)
        + seq![ScopeEvent::StatementList] + stmt_seq_events(a, body, bound)
        + seq![ScopeEvent::LeaveScope]
}

/// Events of a class body: the members in order, each method a function
/// scope of its own; the body itself opens no scope.
pub open spec fn class_member_events(a: Seq<Loc<Node>>, l: Seq<ClassMember>, bound: int) -> Seq<
    ScopeEvent,
>
    decreases bound, 6int, l.len(),
{
    if l.len() == 0 {
        Seq::empty()
    } else {
        class_member_events(a, l.drop_last(), bound) + match l.last() {
            ClassMember::Error => Seq::empty(),
            ClassMember::Method { key, value } => {
                key_ptr_events(a, key, bound) + function_events(a, value.params@, value.body@, bound)
            },
        }
    }
}

/// Events of a declaration's declarators: each target pattern, then its
/// initializer.
pub open spec fn declarator_events(a: Seq<Loc<Node>>, l: Seq<Declarator>, bound: int) -> Seq<
    ScopeEvent,
>
    decreases bound, 6int, l.len(),
{
    if l.len() == 0 {
        Seq::empty()
    } else {
        declarator_events(a, l.drop_last(), bound) + pattern_ptr_events(a, l.last().name, bound)
            + opt_expr_events(a, l.last().value, bound)
    }
}

/// Events of a whole module: its top-level statement list.
pub open spec fn module_events(a: Seq<Loc<Node>>, m: Module) -> Seq<ScopeEvent> {
    seq![ScopeEvent::StatementList] + stmt_seq_events(a, m.body@, a.len() as int)
}

/// A block statement opens exactly one `Block` scope around its own
/// statement list and closes it again: nested blocks therefore nest their
/// enter/leave pairs, one level per block.
pub proof fn lemma_block_statement_events(a: Seq<Loc<Node>>, i: int, b: crate::ast::BlockStatement)
    requires
        0 <= i < a.len(),
        a[i].item == Node::Stmt(Statement::Block(b)),
    ensures
        stmt_events(a, i) == seq![
            ScopeEvent::EnterScope(ScopeKind::Block),
            ScopeEvent::StatementList,
        ] + stmt_seq_events(a, b.body@, i) + seq![ScopeEvent::LeaveScope],
{
}

/// A named function declaration opens exactly one `Function` scope of its
/// own — around its parameters and its body's statement list — and
/// declares its name in the enclosing scope, before that scope is entered.
pub proof fn lemma_function_statement_events(
    a: Seq<Loc<Node>>,
    i: int,
    f: crate::ast::FunctionStatement,
)
    requires
        0 <= i < a.len(),
        a[i].item == Node::Stmt(Statement::Function(f)),
    ensures
        stmt_events(a, i) == seq![ScopeEvent::Declare(f.name.item@)] + function_events(
            a,
            f.params@,
            f.body@,
            i,
        ),
        function_events(a, f.params@, f.body@, i) == seq![
            ScopeEvent::EnterScope(ScopeKind::Function),
        ] + pattern_list_events(a, f.params@, i) + seq![ScopeEvent::StatementList]
            + stmt_seq_events(a, f.body@, i) + seq![ScopeEvent::LeaveScope],
{
}

/// The equivalent function in expression position opens the same single
/// `Function` scope, but declares no name in the enclosing scope, even
/// when it carries one.
pub proof fn lemma_function_expression_events(
    a: Seq<Loc<Node>>,
    i: int,
    f: crate::ast::FunctionExpression,
)
    requires
        0 <= i < a.len(),
        a[i].item == Node::Expr(Expression::Function(f)),
    ensures
        expr_events(a, i) == function_events(a, f.params@, f.body@, i),
{
}

/// A class declaration declares its name in the enclosing scope before
/// anything of the class itself is walked; the class body opens no scope
/// of its own.
pub proof fn lemma_class_statement_events(a: Seq<Loc<Node>>, i: int, c: crate::ast::ClassStatement)
    requires
        0 <= i < a.len(),
        a[i].item == Node::Stmt(Statement::Class(c)),
    ensures
        stmt_events(a, i) == seq![ScopeEvent::Declare(c.name.item@)] + opt_expr_events(
            a,
            c.extends,
            i,
        ) + class_member_events(a, c.body@, i),
{
}

/// A class in expression position walks the same parts but declares no
/// name in the enclosing scope.
pub proof fn lemma_class_expression_events(
    a: Seq<Loc<Node>>,
    i: int,
    c: crate::ast::ClassExpression,
)
    requires
        0 <= i < a.len(),
        a[i].item == Node::Expr(Expression::Class(c)),
    ensures
        expr_events(a, i) == opt_expr_events(a, c.extends, i) + class_member_events(a, c.body@, i),
{
}

/// An empty class body opens zero scopes yet the declaration still
/// declares the class's own name: with no extends clause, that one
/// declaration is the whole event sequence.
pub proof fn lemma_empty_class_declares_name_only(
    a: Seq<Loc<Node>>,
    i: int,
    c: crate::ast::ClassStatement,
)
    requires
        0 <= i < a.len(),
        a[i].item == Node::Stmt(Statement::Class(c)),
        c.body@.len() == 0,
        c.extends is None,
    ensures
        stmt_events(a, i) == seq![ScopeEvent::Declare(c.name.item@)],
{
    assert(stmt_events(a, i) =~= seq![ScopeEvent::Declare(c.name.item@)]);
}

/// Walk a whole module: its top-level statement list, then each statement
/// in source order.
pub fn traverse_module<V: ScopeVisitor>(a: &Arena, m: &Module, v: &mut V)
    requires
        wf(a@),
        module_wf(*m, a@),
    ensures
        final(v).events() == old(v).events() + module_events(a@, *m),
{
    let ghost bound = a@.len() as int;
    traverse_statement_list(a, &m.body, Ghost(bound), v);
    proof {
        assert(v.events() =~= old(v).events() + module_events(a@, *m));
    }
}

/// Walk the expression in slot `p`, visiting it before its children and
/// the children in source order.
pub fn traverse_expression<V: ScopeVisitor>(a: &Arena, p: ExprPtr, v: &mut V)
    requires
        wf(a@),
        (p.idx as int) < a@.len(),
    ensures
        final(v).events() == old(v).events() + expr_events(a@, p.idx as int),
    decreases p.idx as int, 9int, 0int,
{
    let ghost i = p.idx as int;
    let ghost base = v.events();
    proof {
        assert(node_wf_at(a@[i].item, i));
    }
    match &a.nodes[p.idx].item {
        Node::Expr(e) => match e {
            Expression::Error | Expression::Void => {
                proof {
                    assert(v.events() =~= base + expr_events(a@, i));
                }
            },
            Expression::This(_) | Expression::Literal(_) => {
                proof {
                    assert(v.events() =~= base + expr_events(a@, i));
                }
            },
            Expression::Identifier(name) => {
                v.on_reference_use(name.as_str());
                proof {
                    assert(v.events() =~= base + expr_events(a@, i));
                }
            },
            Expression::Sequence(s) => {
                traverse_expr_list(a, &s.body, Ghost(i), v);
                proof {
                    assert(v.events() =~= base + expr_events(a@, i));
                }
            },
            Expression::Array(s) => {
                traverse_expr_list(a, &s.body, Ghost(i), v);
                proof {
                    assert(v.events() =~= base + expr_events(a@, i));
                }
            },
            Expression::Member(m) => {
                traverse_expression(a, m.object, v);
                proof {
                    assert(v.events() =~= base + expr_events(a@, i));
                }
            },
            Expression::ComputedMember(m) => {
                traverse_expression(a, m.object, v);
                traverse_expression(a, m.property, v);
                proof {
                    assert(v.events() =~= base + expr_events(a@, i));
                }
            },
            Expression::Call(c) => {
                traverse_expression(a, c.callee, v);
                traverse_expr_list(a, &c.arguments, Ghost(i), v);
                proof {
                    assert(v.events() =~= base + expr_events(a@, i));
                }
            },
            Expression::Binary(b) => {
                traverse_expression(a, b.left, v);
                traverse_expression(a, b.right, v);
                proof {
                    assert(v.events() =~= base + expr_events(a@, i));
                }
            },
            Expression::Prefix(pre) => {
                traverse_expression(a, pre.operand, v);
                proof {
                    assert(v.events() =~= base + expr_events(a@, i));
                }
            },
            Expression::Postfix(post) => {
                traverse_expression(a, post.operand, v);
                proof {
                    assert(v.events() =~= base + expr_events(a@, i));
                }
            },
            Expression::Conditional(c) => {
                traverse_expression(a, c.test, v);
                traverse_expression(a, c.consequent, v);
                traverse_expression(a, c.alternate, v);
                proof {
                    assert(v.events() =~= base + expr_events(a@, i));
                }
            },
            Expression::Template(t) => {
                traverse_opt_expr(a, &t.tag, Ghost(i), v);
                traverse_expr_list(a, &t.expressions, Ghost(i), v);
                proof {
                    assert(v.events() =~= base + expr_events(a@, i));
                }
            },
            Expression::Spread(s) => {
                traverse_expression(a, s.argument, v);
                proof {
                    assert(v.events() =~= base + expr_events(a@, i));
                }
            },
            Expression::Arrow(arr) => {
                traverse_pattern_list(a, &arr.params, Ghost(i), v);
                match &arr.body {
                    ArrowBody::Expression(body) => {
                        traverse_expression(a, *body, v);
                        proof {
                            assert(v.events() =~= base + expr_events(a@, i));
                        }
                    },
                    ArrowBody::Block(body) => {
                        traverse_statement_list(a, body, Ghost(i), v);
                        proof {
                            assert(v.events() =~= base + expr_events(a@, i));
                        }
                    },
                }
            },
            Expression::Object(o) => {
                traverse_property_list(a, &o.body, Ghost(i), v);
                proof {
                    assert(v.events() =~= base + expr_events(a@, i));
                }
            },
            Expression::Function(f) => {
                traverse_function_parts(a, &f.params, &f.body, Ghost(i), v);
                proof {
                    assert(v.events() =~= base + expr_events(a@, i));
                }
            },
            Expression::Class(c) => {
                traverse_opt_expr(a, &c.extends, Ghost(i), v);
                traverse_class_members(a, &c.body, Ghost(i), v);
                proof {
                    assert(v.events() =~= base + expr_events(a@, i));
                }
            },
        },
        _ => {
            proof {
                assert(v.events() =~= base + expr_events(a@, i));
            }
        },
    }
}

/// Walk the statement in slot `p`.
pub fn traverse_statement<V: ScopeVisitor>(a: &Arena, p: StmtPtr, v: &mut V)
    requires
        wf(a@),
        (p.idx as int) < a@.len(),
    ensures
        final(v).events() == old(v).events() + stmt_events(a@, p.idx as int),
    decreases p.idx as int, 9int, 0int,
{
    let ghost i = p.idx as int;
    let ghost base = v.events();
    proof {
        assert(node_wf_at(a@[i].item, i));
    }
    match &a.nodes[p.idx].item {
        Node::Stmt(s) => match s {
            Statement::Error | Statement::Empty => {
                proof {
                    assert(v.events() =~= base + stmt_events(a@, i));
                }
            },
            Statement::Expression(e) => {
                traverse_expression(a, *e, v);
                proof {
                    assert(v.events() =~= base + stmt_events(a@, i));
                }
            },
            Statement::Declaration(d) => {
                traverse_declarators(a, &d.declarators, Ghost(i), v);
                proof {
                    assert(v.events() =~= base + stmt_events(a@, i));
                }
            },
            Statement::Return(r) => {
                traverse_opt_expr(a, &r.value, Ghost(i), v);
                proof {
                    assert(v.events() =~= base + stmt_events(a@, i));
                }
            },
            Statement::Block(b) => {
                v.on_enter_scope(ScopeKind::Block);
                traverse_statement_list(a, &b.body, Ghost(i), v);
                v.on_leave_scope();
                proof {
                    assert(v.events() =~= base + stmt_events(a@, i));
                }
            },
            Statement::Function(f) => {
                v.on_reference_declaration(f.name.item.as_str());
                traverse_function_parts(a, &f.params, &f.body, Ghost(i), v);
                proof {
                    assert(v.events() =~= base + stmt_events(a@, i));
                }
            },
            Statement::Class(c) => {
                v.on_reference_declaration(c.name.item.as_str());
                traverse_opt_expr(a, &c.extends, Ghost(i), v);
                traverse_class_members(a, &c.body, Ghost(i), v);
                proof {
                    assert(v.events() =~= base + stmt_events(a@, i));
                }
            },
        },
        _ => {
            proof {
                assert(v.events() =~= base + stmt_events(a@, i));
            }
        },
    }
}

/// Walk the pattern in slot `p`: every plain identifier inside it is a
/// reference declaration.
pub fn traverse_pattern<V: ScopeVisitor>(a: &Arena, p: PatternPtr, v: &mut V)
    requires
        wf(a@),
        (p.idx as int) < a@.len(),
    ensures
        final(v).events() == old(v).events() + pattern_events(a@, p.idx as int),
    decreases p.idx as int, 9int, 0int,
{
    let ghost i = p.idx as int;
    let ghost base = v.events();
    proof {
        assert(node_wf_at(a@[i].item, i));
    }
    match &a.nodes[p.idx].item {
        Node::Pat(pat) => match pat {
            Pattern::Void => {
                proof {
                    assert(v.events() =~= base + pattern_events(a@, i));
                }
            },
            Pattern::Identifier(name) => {
                v.on_reference_declaration(name.as_str());
                proof {
                    assert(v.events() =~= base + pattern_events(a@, i));
                }
            },
            Pattern::ObjectPattern { properties } => {
                traverse_property_list(a, properties, Ghost(i), v);
                proof {
                    assert(v.events() =~= base + pattern_events(a@, i));
                }
            },
            Pattern::ArrayPattern { elements } => {
                traverse_pattern_list(a, elements, Ghost(i), v);
                proof {
                    assert(v.events() =~= base + pattern_events(a@, i));
                }
            },
            Pattern::RestElement { argument } => {
                traverse_pattern(a, *argument, v);
                proof {
                    assert(v.events() =~= base + pattern_events(a@, i));
                }
            },
            Pattern::AssignmentPattern { left, right } => {
                traverse_pattern(a, *left, v);
                traverse_expression(a, *right, v);
                proof {
                    assert(v.events() =~= base + pattern_events(a@, i));
                }
            },
        },
        _ => {
            proof {
                assert(v.events() =~= base + pattern_events(a@, i));
            }
        },
    }
}

/// Walk the object-literal property in slot `p`.
pub fn traverse_property<V: ScopeVisitor>(a: &Arena, p: PropertyPtr, v: &mut V)
    requires
        wf(a@),
        (p.idx as int) < a@.len(),
    ensures
        final(v).events() == old(v).events() + property_events(a@, p.idx as int),
    decreases p.idx as int, 9int, 0int,
{
    let ghost i = p.idx as int;
    let ghost base = v.events();
    proof {
        assert(node_wf_at(a@[i].item, i));
    }
    match &a.nodes[p.idx].item {
        Node::Prop(prop) => match prop {
            Property::Shorthand(name) => {
                v.on_reference_use(name.as_str());
                proof {
                    assert(v.events() =~= base + property_events(a@, i));
                }
            },
            Property::Literal { key, value } => {
                traverse_property_key(a, *key, v);
                traverse_expression(a, *value, v);
                proof {
                    assert(v.events() =~= base + property_events(a@, i));
                }
            },
            Property::Method { key, value } => {
                traverse_property_key(a, *key, v);
                traverse_function_parts(a, &value.params, &value.body, Ghost(i), v);
                proof {
                    assert(v.events() =~= base + property_events(a@, i));
                }
            },
        },
        _ => {
            proof {
                assert(v.events() =~= base + property_events(a@, i));
            }
        },
    }
}

/// Walk the property key in slot `p`: only a computed key holds children.
pub fn traverse_property_key<V: ScopeVisitor>(a: &Arena, p: PropertyKeyPtr, v: &mut V)
    requires
        wf(a@),
        (p.idx as int) < a@.len(),
    ensures
        final(v).events() == old(v).events() + key_events(a@, p.idx as int),
    decreases p.idx as int, 9int, 0int,
{
    let ghost i = p.idx as int;
    let ghost base = v.events();
    proof {
        assert(node_wf_at(a@[i].item, i));
    }
    match &a.nodes[p.idx].item {
        Node::Key(k) => match k {
            PropertyKey::Computed(e) => {
                traverse_expression(a, *e, v);
                proof {
                    assert(v.events() =~= base + key_events(a@, i));
                }
            },
            PropertyKey::Literal(_) | PropertyKey::Binary(_) => {
                proof {
                    assert(v.events() =~= base + key_events(a@, i));
                }
            },
        },
        _ => {
            proof {
                assert(v.events() =~= base + key_events(a@, i));
            }
        },
    }
}

/// Walk a statement sequence: report the list itself, then each statement
/// in source order.
fn traverse_statement_list<V: ScopeVisitor>(
    a: &Arena,
    l: &Vec<StmtPtr>,
    bound: Ghost<int>,
    v: &mut V,
)
    requires
        wf(a@),
        0 <= bound@ <= a@.len(),
        stmt_list_bounded(l@, bound@),
    ensures
        final(v).events() == old(v).events() + seq![ScopeEvent::StatementList] + stmt_seq_events(
            a@,
            l@,
            bound@,
        ),
    decreases bound@, 5int, 0int,
{
    v.on_statement_list();
    let ghost base = v.events();
    proof {
        assert(base + stmt_seq_events(a@, l@.take(0), bound@) =~= base);
    }
    let mut k: usize = 0;
    while k < l.len()
        invariant
            wf(a@),
            0 <= bound@ <= a@.len(),
            stmt_list_bounded(l@, bound@),
            k <= l.len(),
            v.events() == base + stmt_seq_events(a@, l@.take(k as int), bound@),
        decreases l.len() - k,
    {
        proof {
            assert(stmt_ptr_bounded(l@[k as int], bound@));
        }
        traverse_statement(a, l[k], v);
        proof {
            let prefix_next = l@.take(k as int + 1);
            assert(prefix_next.len() == k + 1);
            assert(prefix_next.drop_last() =~= l@.take(k as int));
            assert(prefix_next.last() == l@[k as int]);
            assert(stmt_seq_events(a@, prefix_next, bound@) == stmt_seq_events(
                a@,
                prefix_next.drop_last(),
                bound@,
            ) + stmt_ptr_events(a@, prefix_next.last(), bound@));
            assert(stmt_ptr_events(a@, l@[k as int], bound@) == stmt_events(
                a@,
                l@[k as int].idx as int,
            ));
            assert(v.events() =~= base + stmt_seq_events(a@, prefix_next, bound@));
        }
        k = k + 1;
    }
    proof {
        assert(l@.take(l.len() as int) =~= l@);
        assert(v.events() =~= old(v).events() + seq![ScopeEvent::StatementList]
            + stmt_seq_events(a@, l@, bound@));
    }
}

/// Walk a list of expression children in source order.
fn traverse_expr_list<V: ScopeVisitor>(a: &Arena, l: &Vec<ExprPtr>, bound: Ghost<int>, v: &mut V)
    requires
        wf(a@),
        0 <= bound@ <= a@.len(),
        expr_list_bounded(l@, bound@),
    ensures
        final(v).events() == old(v).events() + expr_list_events(a@, l@, bound@),
    decreases bound@, 4int, 0int,
{
    let ghost base = v.events();
    proof {
        assert(base + expr_list_events(a@, l@.take(0), bound@) =~= base);
    }
    let mut k: usize = 0;
    while k < l.len()
        invariant
            wf(a@),
            0 <= bound@ <= a@.len(),
            expr_list_bounded(l@, bound@),
            k <= l.len(),
            v.events() == base + expr_list_events(a@, l@.take(k as int), bound@),
        decreases l.len() - k,
    {
        proof {
            assert(expr_ptr_bounded(l@[k as int], bound@));
        }
        traverse_expression(a, l[k], v);
        proof {
            let prefix_next = l@.take(k as int + 1);
            assert(prefix_next.len() == k + 1);
            assert(prefix_next.drop_last() =~= l@.take(k as int));
            assert(prefix_next.last() == l@[k as int]);
            assert(expr_list_events(a@, prefix_next, bound@) == expr_list_events(
                a@,
                prefix_next.drop_last(),
                bound@,
            ) + expr_ptr_events(a@, prefix_next.last(), bound@));
            assert(expr_ptr_events(a@, l@[k as int], bound@) == expr_events(
                a@,
                l@[k as int].idx as int,
            ));
            assert(v.events() =~= base + expr_list_events(a@, prefix_next, bound@));
        }
        k = k + 1;
    }
    proof {
        assert(l@.take(l.len() as int) =~= l@);
    }
}

/// Walk a list of pattern children in source order.
fn traverse_pattern_list<V: ScopeVisitor>(
    a: &Arena,
    l: &Vec<PatternPtr>,
    bound: Ghost<int>,
    v: &mut V,
)
    requires
        wf(a@),
        0 <= bound@ <= a@.len(),
        pattern_list_bounded(l@, bound@),
    ensures
        final(v).events() == old(v).events() + pattern_list_events(a@, l@, bound@),
    decreases bound@, 4int, 0int,
{
    let ghost base = v.events();
    proof {
        assert(base + pattern_list_events(a@, l@.take(0), bound@) =~= base);
    }
    let mut k: usize = 0;
    while k < l.len()
        invariant
            wf(a@),
            0 <= bound@ <= a@.len(),
            pattern_list_bounded(l@, bound@),
            k <= l.len(),
            v.events() == base + pattern_list_events(a@, l@.take(k as int), bound@),
        decreases l.len() - k,
    {
        proof {
            assert(pattern_ptr_bounded(l@[k as int], bound@));
        }
        traverse_pattern(a, l[k], v);
        proof {
            let prefix_next = l@.take(k as int + 1);
            assert(prefix_next.len() == k + 1);
            assert(prefix_next.drop_last() =~= l@.take(k as int));
            assert(prefix_next.last() == l@[k as int]);
            assert(pattern_list_events(a@, prefix_next, bound@) == pattern_list_events(
                a@,
                prefix_next.drop_last(),
                bound@,
            ) + pattern_ptr_events(a@, prefix_next.last(), bound@));
            assert(pattern_ptr_events(a@, l@[k as int], bound@) == pattern_events(
                a@,
                l@[k as int].idx as int,
            ));
            assert(v.events() =~= base + pattern_list_events(a@, prefix_next, bound@));
        }
        k = k + 1;
    }
    proof {
        assert(l@.take(l.len() as int) =~= l@);
    }
}

/// Walk a list of object-literal properties in source order.
fn traverse_property_list<V: ScopeVisitor>(
    a: &Arena,
    l: &Vec<PropertyPtr>,
    bound: Ghost<int>,
    v: &mut V,
)
    requires
        wf(a@),
        0 <= bound@ <= a@.len(),
        property_list_bounded(l@, bound@),
    ensures
        final(v).events() == old(v).events() + property_list_events(a@, l@, bound@),
    decreases bound@, 4int, 0int,
{
    let ghost base = v.events();
    proof {
        assert(base + property_list_events(a@, l@.take(0), bound@) =~= base);
    }
    let mut k: usize = 0;
    while k < l.len()
        invariant
            wf(a@),
            0 <= bound@ <= a@.len(),
            property_list_bounded(l@, bound@),
            k <= l.len(),
            v.events() == base + property_list_events(a@, l@.take(k as int), bound@),
        decreases l.len() - k,
    {
        proof {
            assert(property_ptr_bounded(l@[k as int], bound@));
        }
        traverse_property(a, l[k], v);
        proof {
            let prefix_next = l@.take(k as int + 1);
            assert(prefix_next.len() == k + 1);
            assert(prefix_next.drop_last() =~= l@.take(k as int));
            assert(prefix_next.last() == l@[k as int]);
            assert(property_list_events(a@, prefix_next, bound@) == property_list_events(
                a@,
                prefix_next.drop_last(),
                bound@,
            ) + property_ptr_events(a@, prefix_next.last(), bound@));
            assert(property_ptr_events(a@, l@[k as int], bound@) == property_events(
                a@,
                l@[k as int].idx as int,
            ));
            assert(v.events() =~= base + property_list_events(a@, prefix_next, bound@));
        }
        k = k + 1;
    }
    proof {
        assert(l@.take(l.len() as int) =~= l@);
    }
}

/// Walk an optional expression child.
fn traverse_opt_expr<V: ScopeVisitor>(a: &Arena, o: &Option<ExprPtr>, bound: Ghost<int>, v: &mut V)
    requires
        wf(a@),
        0 <= bound@ <= a@.len(),
        opt_expr_bounded(*o, bound@),
    ensures
        final(v).events() == old(v).events() + opt_expr_events(a@, *o, bound@),
    decreases bound@, 4int, 1int,
{
    let ghost base = v.events();
    match o {
        Option::Some(p) => {
            traverse_expression(a, *p, v);
            proof {
                assert(v.events() =~= base + opt_expr_events(a@, *o, bound@));
            }
        },
        Option::None => {
            proof {
                assert(v.events() =~= base + opt_expr_events(a@, *o, bound@));
            }
        },
    }
}

/// Walk a function-like construct: enter one `Function` scope, walk the
/// parameters, then the body's statement list, then leave the scope.
fn traverse_function_parts<V: ScopeVisitor>(
    a: &Arena,
    params: &Vec<PatternPtr>,
    body: &Vec<StmtPtr>,
    bound: Ghost<int>,
    v: &mut V,
)
    requires
        wf(a@),
        0 <= bound@ <= a@.len(),
        pattern_list_bounded(params@, bound@),
        stmt_list_bounded(body@, bound@),
    ensures
        final(v).events() == old(v).events() + function_events(a@, params@, body@, bound@),
    decreases bound@, 6int, 0int,
{
    v.on_enter_scope(ScopeKind::Function);
    traverse_pattern_list(a, params, bound, v);
    traverse_statement_list(a, body, bound, v);
    v.on_leave_scope();
    proof {
        assert(v.events() =~= old(v).events() + function_events(a@, params@, body@, bound@));
    }
}

/// Walk a class body member by member; each method is one function scope,
/// the body itself none.
fn traverse_class_members<V: ScopeVisitor>(
    a: &Arena,
    l: &Vec<ClassMember>,
    bound: Ghost<int>,
    v: &mut V,
)
    requires
        wf(a@),
        0 <= bound@ <= a@.len(),
        class_members_bounded(l@, bound@),
    ensures
        final(v).events() == old(v).events() + class_member_events(a@, l@, bound@),
    decreases bound@, 7int, 0int,
{
    let ghost base = v.events();
    proof {
        assert(base + class_member_events(a@, l@.take(0), bound@) =~= base);
    }
    let mut k: usize = 0;
    while k < l.len()
        invariant
            wf(a@),
            0 <= bound@ <= a@.len(),
            class_members_bounded(l@, bound@),
            k <= l.len(),
            v.events() == base + class_member_events(a@, l@.take(k as int), bound@),
        decreases l.len() - k,
    {
        proof {
            assert(crate::ast::class_member_bounded(l@[k as int], bound@));
        }
        match &l[k] {
            ClassMember::Error => {},
            ClassMember::Method { key, value } => {
                traverse_property_key(a, *key, v);
                traverse_function_parts(a, &value.params, &value.body, bound, v);
            },
        }
        proof {
            let prefix_next = l@.take(k as int + 1);
            assert(prefix_next.len() == k + 1);
            assert(prefix_next.drop_last() =~= l@.take(k as int));
            assert(prefix_next.last() == l@[k as int]);
            assert(class_member_events(a@, prefix_next, bound@) == class_member_events(
                a@,
                prefix_next.drop_last(),
                bound@,
            ) + match prefix_next.last() {
                ClassMember::Error => Seq::<ScopeEvent>::empty(),
                ClassMember::Method { key, value } => {
                    key_ptr_events(a@, key, bound@) + function_events(
                        a@,
                        value.params@,
                        value.body@,
                        bound@,
                    )
                },
            });
            assert(v.events() =~= base + class_member_events(a@, prefix_next, bound@));
        }
        k = k + 1;
    }
    proof {
        assert(l@.take(l.len() as int) =~= l@);
    }
}

/// Marker for the visitable types a caller may hand directly to a
/// traversal: their `Parent` is this alias rather than some wrapping node.
pub type NoParent = ();

/// The capability of being traversed depth-first under a visitor. The
/// `Parent` type records through which wrapper a value must be reached:
/// only types whose parent is [`NoParent`] are roots a caller should
/// traverse directly, so node-level bookkeeping can never be skipped by
/// walking a bare payload. Payload unions themselves carry no handle to
/// their children's slots and so are not traversable at all here: every
/// entry point goes through an arena handle.
pub trait Visitable<V: ScopeVisitor> {
    /// The wrapper through which this value is reached, or [`NoParent`].
    type Parent;

    /// When the value may be walked against the arena.
    spec fn ready(&self, a: &Arena) -> bool;

    /// The exact event sequence a walk of this value produces.
    spec fn events_of(&self, a: &Arena) -> Seq<ScopeEvent>;

    /// Walk this value depth-first, reporting to the visitor.
    fn traverse(&self, a: &Arena, v: &mut V)
        requires
            wf(a@),
            self.ready(a),
        ensures
            final(v).events() == old(v).events() + self.events_of(a),
    ;
}

impl<V: ScopeVisitor> Visitable<V> for Module {
    type Parent = NoParent;

    open spec fn ready(&self, a: &Arena) -> bool {
        module_wf(*self, a@)
    }

    open spec fn events_of(&self, a: &Arena) -> Seq<ScopeEvent> {
        module_events(a@, *self)
    }

    fn traverse(&self, a: &Arena, v: &mut V) {
        traverse_module(a, self, v);
    }
}

impl<V: ScopeVisitor> Visitable<V> for ExprPtr {
    type Parent = NoParent;

    open spec fn ready(&self, a: &Arena) -> bool {
        (self.idx as int) < a@.len()
    }

    open spec fn events_of(&self, a: &Arena) -> Seq<ScopeEvent> {
        expr_events(a@, self.idx as int)
    }

    fn traverse(&self, a: &Arena, v: &mut V) {
        traverse_expression(a, *self, v);
    }
}

impl<V: ScopeVisitor> Visitable<V> for StmtPtr {
    type Parent = NoParent;

    open spec fn ready(&self, a: &Arena) -> bool {
        (self.idx as int) < a@.len()
    }

    open spec fn events_of(&self, a: &Arena) -> Seq<ScopeEvent> {
        stmt_events(a@, self.idx as int)
    }

    fn traverse(&self, a: &Arena, v: &mut V) {
        traverse_statement(a, *self, v);
    }
}

impl<V: ScopeVisitor> Visitable<V> for PatternPtr {
    type Parent = NoParent;

    open spec fn ready(&self, a: &Arena) -> bool {
        (self.idx as int) < a@.len()
    }

    open spec fn events_of(&self, a: &Arena) -> Seq<ScopeEvent> {
        pattern_events(a@, self.idx as int)
    }

    fn traverse(&self, a: &Arena, v: &mut V) {
        traverse_pattern(a, *self, v);
    }
}

impl<V: ScopeVisitor> Visitable<V> for PropertyPtr {
    type Parent = NoParent;

    open spec fn ready(&self, a: &Arena) -> bool {
        (self.idx as int) < a@.len()
    }

    open spec fn events_of(&self, a: &Arena) -> Seq<ScopeEvent> {
        property_events(a@, self.idx as int)
    }

    fn traverse(&self, a: &Arena, v: &mut V) {
        traverse_property(a, *self, v);
    }
}

impl<V: ScopeVisitor> Visitable<V> for PropertyKeyPtr {
    type Parent = NoParent;

    open spec fn ready(&self, a: &Arena) -> bool {
        (self.idx as int) < a@.len()
    }

    open spec fn events_of(&self, a: &Arena) -> Seq<ScopeEvent> {
        key_events(a@, self.idx as int)
    }

    fn traverse(&self, a: &Arena, v: &mut V) {
        traverse_property_key(a, *self, v);
    }
}

impl<V: ScopeVisitor> Visitable<V> for Vec<ExprPtr> {
    type Parent = NoParent;

    open spec fn ready(&self, a: &Arena) -> bool {
        expr_list_bounded(self@, a@.len() as int)
    }

    open spec fn events_of(&self, a: &Arena) -> Seq<ScopeEvent> {
        expr_list_events(a@, self@, a@.len() as int)
    }

    fn traverse(&self, a: &Arena, v: &mut V) {
        let ghost bound = a@.len() as int;
        traverse_expr_list(a, self, Ghost(bound), v);
    }
}

/// A statement list is itself an event: walking one announces the list
/// before its statements, as for a module body, block body or function
/// body.
impl<V: ScopeVisitor> Visitable<V> for Vec<StmtPtr> {
    type Parent = NoParent;

    open spec fn ready(&self, a: &Arena) -> bool {
        stmt_list_bounded(self@, a@.len() as int)
    }

    open spec fn events_of(&self, a: &Arena) -> Seq<ScopeEvent> {
        seq![ScopeEvent::StatementList] + stmt_seq_events(a@, self@, a@.len() as int)
    }

    fn traverse(&self, a: &Arena, v: &mut V) {
        let ghost bound = a@.len() as int;
        traverse_statement_list(a, self, Ghost(bound), v);
        proof {
            assert(v.events() =~= old(v).events() + Visitable::<V>::events_of(self, a));
        }
    }
}

impl<V: ScopeVisitor, T: Visitable<V>> Visitable<V> for Option<T> {
    type Parent = <T as Visitable<V>>::Parent;

    open spec fn ready(&self, a: &Arena) -> bool {
        match self {
            Option::Some(x) => x.ready(a),
            Option::None => true,
        }
    }

    open spec fn events_of(&self, a: &Arena) -> Seq<ScopeEvent> {
        match self {
            Option::Some(x) => x.events_of(a),
            Option::None => Seq::empty(),
        }
    }

    fn traverse(&self, a: &Arena, v: &mut V) {
        let ghost base = v.events();
        match self {
            Option::Some(x) => {
                x.traverse(a, v);
            },
            Option::None => {
                proof {
                    assert(v.events() =~= base + Visitable::<V>::events_of(self, a));
                }
            },
        }
    }
}

/// Walk a declaration's declarators: each target pattern, then its
/// initializer where there is one.
fn traverse_declarators<V: ScopeVisitor>(
    a: &Arena,
    l: &Vec<Declarator>,
    bound: Ghost<int>,
    v: &mut V,
)
    requires
        wf(a@),
        0 <= bound@ <= a@.len(),
        declarators_bounded(l@, bound@),
    ensures
        final(v).events() == old(v).events() + declarator_events(a@, l@, bound@),
    decreases bound@, 7int, 0int,
{
    let ghost base = v.events();
    proof {
        assert(base + declarator_events(a@, l@.take(0), bound@) =~= base);
    }
    let mut k: usize = 0;
    while k < l.len()
        invariant
            wf(a@),
            0 <= bound@ <= a@.len(),
            declarators_bounded(l@, bound@),
            k <= l.len(),
            v.events() == base + declarator_events(a@, l@.take(k as int), bound@),
        decreases l.len() - k,
    {
        proof {
            assert(crate::ast::declarator_bounded(l@[k as int], bound@));
        }
        let d = &l[k];
        traverse_pattern(a, d.name, v);
        traverse_opt_expr(a, &d.value, bound, v);
        proof {
            let prefix_next = l@.take(k as int + 1);
            assert(prefix_next.len() == k + 1);
            assert(prefix_next.drop_last() =~= l@.take(k as int));
            assert(prefix_next.last() == l@[k as int]);
            assert(declarator_events(a@, prefix_next, bound@) == declarator_events(
                a@,
                prefix_next.drop_last(),
                bound@,
            ) + pattern_ptr_events(a@, prefix_next.last().name, bound@) + opt_expr_events(
                a@,
                prefix_next.last().value,
                bound@,
            ));
            assert(pattern_ptr_events(a@, l@[k as int].name, bound@) == pattern_events(
                a@,
                l@[k as int].name.idx as int,
            ));
            assert(v.events() =~= base + declarator_events(a@, prefix_next, bound@));
        }
        k = k + 1;
    }
    proof {
        assert(l@.take(l.len() as int) =~= l@);
    }
}

} // verus!
