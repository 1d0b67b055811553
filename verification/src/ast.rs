//! The node model: a bump-style arena owning every node of one parse, with
//! copyable index handles, and the well-formedness predicate that every
//! traversal and analysis relies on.
//!
//! All nodes of a parse live in one [`Arena`]. A handle (`ExprPtr`,
//! `StmtPtr`, ...) is a plain index into the arena and never owns its target.
//! The arena is append-only: the external parser allocates children before
//! their parent, so every child handle held by a node points strictly below
//! that node's own slot. That ordering is the whole well-formedness
//! invariant [`wf`], and it is what makes every walk over the tree
//! terminate.

use vstd::prelude::*;

verus! {

/// A half-open `[start, end)` byte range in the source, paired with a node
/// payload. Every externally visible node carries such a range.
#[derive(Debug, Clone, Copy, PartialEq)]
pub struct Loc<T> {
    pub start: u32,
    pub end: u32,
    pub item: T,
}

/// Copyable, non-owning handle to an expression slot of an [`Arena`].
///
/// Handles compare by slot. Nodes are written once and never mutated, so
/// two equal handles into one arena always reference one and the same
/// value; distinct slots holding equal subtrees compare unequal.
#[derive(Debug, Clone, Copy, PartialEq)]
pub struct ExprPtr {
    pub idx: usize,
}

/// Copyable, non-owning handle to a statement slot of an [`Arena`].
#[derive(Debug, Clone, Copy, PartialEq)]
pub struct StmtPtr {
    pub idx: usize,
}

/// Copyable, non-owning handle to a pattern slot of an [`Arena`].
#[derive(Debug, Clone, Copy, PartialEq)]
pub struct PatternPtr {
    pub idx: usize,
}

/// Copyable, non-owning handle to an object-literal property slot.
#[derive(Debug, Clone, Copy, PartialEq)]
pub struct PropertyPtr {
    pub idx: usize,
}

/// Copyable, non-owning handle to a property-key slot.
#[derive(Debug, Clone, Copy, PartialEq)]
pub struct PropertyKeyPtr {
    pub idx: usize,
}

/// The key of an object-literal member.
#[derive(Debug, Clone, PartialEq)]
pub enum PropertyKey {
    /// A bracketed key: the expression is evaluated to name the member.
    Computed(ExprPtr),
    /// A plain identifier key.
    Literal(String),
    /// A numeric key kept as its source text.
    Binary(String),
}

/// An object-literal member.
#[derive(Debug, Clone, PartialEq)]
pub enum Property {
    /// `{ name }`: a use of the named binding, not a declaration.
    Shorthand(String),
    /// `{ key: value }`.
    Literal { key: PropertyKeyPtr, value: ExprPtr },
    /// `{ key() { ... } }`: the value is a method body of its own.
    Method { key: PropertyKeyPtr, value: MethodFunction },
}

/// The parameters and body of a function that carries no name of its own:
/// an object-literal or class method.
#[derive(Debug, Clone, PartialEq)]
pub struct MethodFunction {
    pub params: Vec<PatternPtr>,
    pub body: Vec<StmtPtr>,
}

/// A literal token, kept as it stood in the source.
#[derive(Debug, Clone, PartialEq)]
pub enum Literal {
    Undefined,
    Null,
    True,
    False,
    /// A decimal number, as source text.
    Number(String),
    /// A binary/hex/octal number, as source text.
    Binary(String),
    /// A string literal, quotes included.
    String(String),
    /// A regular expression literal, delimiters and flags included.
    RegEx(String),
    /// A template literal without substitutions, backticks excluded.
    Template(String),
}

/// While not technically necessary, having a type helps with implementing
/// the visitor pattern on the tree.
#[derive(Debug, Clone, Copy, PartialEq)]
pub struct ThisExpression;

/// `a, b, c`
#[derive(Debug, Clone, PartialEq)]
pub struct SequenceExpression {
    pub body: Vec<ExprPtr>,
}

/// `[a, b, c]`
#[derive(Debug, Clone, PartialEq)]
pub struct ArrayExpression {
    pub body: Vec<ExprPtr>,
}

/// `object.property`
#[derive(Debug, Clone, PartialEq)]
pub struct MemberExpression {
    pub object: ExprPtr,
    pub property: Loc<String>,
}

/// `object[property]`
#[derive(Debug, Clone, PartialEq)]
pub struct ComputedMemberExpression {
    pub object: ExprPtr,
    pub property: ExprPtr,
}

/// `callee(arguments...)`
#[derive(Debug, Clone, PartialEq)]
pub struct CallExpression {
    pub callee: ExprPtr,
    pub arguments: Vec<ExprPtr>,
}

/// `left operator right`; assignment is a binary expression whose operator
/// is one of the assigning kind.
#[derive(Debug, Clone, PartialEq)]
pub struct BinaryExpression {
    pub operator: crate::grammar::OperatorKind,
    pub left: ExprPtr,
    pub right: ExprPtr,
}

/// `operator operand`
#[derive(Debug, Clone, PartialEq)]
pub struct PrefixExpression {
    pub operator: crate::grammar::OperatorKind,
    pub operand: ExprPtr,
}

/// `operand operator`
#[derive(Debug, Clone, PartialEq)]
pub struct PostfixExpression {
    pub operator: crate::grammar::OperatorKind,
    pub operand: ExprPtr,
}

/// `test ? consequent : alternate`
#[derive(Debug, Clone, PartialEq)]
pub struct ConditionalExpression {
    pub test: ExprPtr,
    pub consequent: ExprPtr,
    pub alternate: ExprPtr,
}

/// A template literal, optionally tagged. The string segments (`quasis`)
/// interleave with the substitution expressions, so a well-formed template
/// always holds one more quasi than expressions.
#[derive(Debug, Clone, PartialEq)]
pub struct TemplateExpression {
    pub tag: Option<ExprPtr>,
    pub expressions: Vec<ExprPtr>,
    pub quasis: Vec<Loc<String>>,
}

/// `...argument`
#[derive(Debug, Clone, PartialEq)]
pub struct SpreadExpression {
    pub argument: ExprPtr,
}

/// The body of an arrow function: a bare expression or a block.
#[derive(Debug, Clone, PartialEq)]
pub enum ArrowBody {
    Expression(ExprPtr),
    Block(Vec<StmtPtr>),
}

/// `(params) => body`
#[derive(Debug, Clone, PartialEq)]
pub struct ArrowExpression {
    pub params: Vec<PatternPtr>,
    pub body: ArrowBody,
}

/// `{ properties... }`
#[derive(Debug, Clone, PartialEq)]
pub struct ObjectExpression {
    pub body: Vec<PropertyPtr>,
}

/// A function in expression position; its name, if any, is not declared in
/// the enclosing scope.
#[derive(Debug, Clone, PartialEq)]
pub struct FunctionExpression {
    pub name: Option<Loc<String>>,
    pub params: Vec<PatternPtr>,
    pub body: Vec<StmtPtr>,
}

/// A class in expression position; its name, if any, is not declared in
/// the enclosing scope.
#[derive(Debug, Clone, PartialEq)]
pub struct ClassExpression {
    pub name: Option<Loc<String>>,
    pub extends: Option<ExprPtr>,
    pub body: Vec<ClassMember>,
}

/// A member of a class body.
#[derive(Debug, Clone, PartialEq)]
pub enum ClassMember {
    /// Placeholder for a malformed member.
    Error,
    /// A method; its body is a function scope of its own.
    Method { key: PropertyKeyPtr, value: MethodFunction },
}

/// The expression union. `Error` and `Void` are in-band sentinels standing
/// for malformed or elided expressions, so that a broken subtree never
/// prevents walking the rest of the tree.
#[derive(Debug, Clone, PartialEq)]
pub enum Expression {
    Error,
    Void,
    This(ThisExpression),
    Identifier(String),
    Literal(Literal),
    Sequence(SequenceExpression),
    Array(ArrayExpression),
    Member(MemberExpression),
    ComputedMember(ComputedMemberExpression),
    Call(CallExpression),
    Binary(BinaryExpression),
    Prefix(PrefixExpression),
    Postfix(PostfixExpression),
    Conditional(ConditionalExpression),
    Template(TemplateExpression),
    Spread(SpreadExpression),
    Arrow(ArrowExpression),
    Object(ObjectExpression),
    Function(FunctionExpression),
    Class(ClassExpression),
}

impl From<ThisExpression> for Expression {
    fn from(val: ThisExpression) -> Expression {
        Expression::This(val)
    }
}

impl vstd::std_specs::convert::FromSpecImpl<ThisExpression> for Expression {
    open spec fn obeys_from_spec() -> bool {
        true
    }

    open spec fn from_spec(val: ThisExpression) -> Expression {
        Expression::This(val)
    }
}

impl From<String> for Expression {
    fn from(val: String) -> Expression {
        Expression::Identifier(val)
    }
}

impl vstd::std_specs::convert::FromSpecImpl<String> for Expression {
    open spec fn obeys_from_spec() -> bool {
        true
    }

    open spec fn from_spec(val: String) -> Expression {
        Expression::Identifier(val)
    }
}

impl From<Literal> for Expression {
    fn from(val: Literal) -> Expression {
        Expression::Literal(val)
    }
}

impl vstd::std_specs::convert::FromSpecImpl<Literal> for Expression {
    open spec fn obeys_from_spec() -> bool {
        true
    }

    open spec fn from_spec(val: Literal) -> Expression {
        Expression::Literal(val)
    }
}

impl From<SequenceExpression> for Expression {
    fn from(val: SequenceExpression) -> Expression {
        Expression::Sequence(val)
    }
}

impl vstd::std_specs::convert::FromSpecImpl<SequenceExpression> for Expression {
    open spec fn obeys_from_spec() -> bool {
        true
    }

    open spec fn from_spec(val: SequenceExpression) -> Expression {
        Expression::Sequence(val)
    }
}

impl From<ArrayExpression> for Expression {
    fn from(val: ArrayExpression) -> Expression {
        Expression::Array(val)
    }
}

impl vstd::std_specs::convert::FromSpecImpl<ArrayExpression> for Expression {
    open spec fn obeys_from_spec() -> bool {
        true
    }

    open spec fn from_spec(val: ArrayExpression) -> Expression {
        Expression::Array(val)
    }
}

impl From<MemberExpression> for Expression {
    fn from(val: MemberExpression) -> Expression {
        Expression::Member(val)
    }
}

impl vstd::std_specs::convert::FromSpecImpl<MemberExpression> for Expression {
    open spec fn obeys_from_spec() -> bool {
        true
    }

    open spec fn from_spec(val: MemberExpression) -> Expression {
        Expression::Member(val)
    }
}

impl From<ComputedMemberExpression> for Expression {
    fn from(val: ComputedMemberExpression) -> Expression {
        Expression::ComputedMember(val)
    }
}

impl vstd::std_specs::convert::FromSpecImpl<ComputedMemberExpression> for Expression {
    open spec fn obeys_from_spec() -> bool {
        true
    }

    open spec fn from_spec(val: ComputedMemberExpression) -> Expression {
        Expression::ComputedMember(val)
    }
}

impl From<CallExpression> for Expression {
    fn from(val: CallExpression) -> Expression {
        Expression::Call(val)
    }
}

impl vstd::std_specs::convert::FromSpecImpl<CallExpression> for Expression {
    open spec fn obeys_from_spec() -> bool {
        true
    }

    open spec fn from_spec(val: CallExpression) -> Expression {
        Expression::Call(val)
    }
}

impl From<BinaryExpression> for Expression {
    fn from(val: BinaryExpression) -> Expression {
        Expression::Binary(val)
    }
}

impl vstd::std_specs::convert::FromSpecImpl<BinaryExpression> for Expression {
    open spec fn obeys_from_spec() -> bool {
        true
    }

    open spec fn from_spec(val: BinaryExpression) -> Expression {
        Expression::Binary(val)
    }
}

impl From<PrefixExpression> for Expression {
    fn from(val: PrefixExpression) -> Expression {
        Expression::Prefix(val)
    }
}

impl vstd::std_specs::convert::FromSpecImpl<PrefixExpression> for Expression {
    open spec fn obeys_from_spec() -> bool {
        true
    }

    open spec fn from_spec(val: PrefixExpression) -> Expression {
        Expression::Prefix(val)
    }
}

impl From<PostfixExpression> for Expression {
    fn from(val: PostfixExpression) -> Expression {
        Expression::Postfix(val)
    }
}

impl vstd::std_specs::convert::FromSpecImpl<PostfixExpression> for Expression {
    open spec fn obeys_from_spec() -> bool {
        true
    }

    open spec fn from_spec(val: PostfixExpression) -> Expression {
        Expression::Postfix(val)
    }
}

impl From<ConditionalExpression> for Expression {
    fn from(val: ConditionalExpression) -> Expression {
        Expression::Conditional(val)
    }
}

impl vstd::std_specs::convert::FromSpecImpl<ConditionalExpression> for Expression {
    open spec fn obeys_from_spec() -> bool {
        true
    }

    open spec fn from_spec(val: ConditionalExpression) -> Expression {
        Expression::Conditional(val)
    }
}

impl From<TemplateExpression> for Expression {
    fn from(val: TemplateExpression) -> Expression {
        Expression::Template(val)
    }
}

impl vstd::std_specs::convert::FromSpecImpl<TemplateExpression> for Expression {
    open spec fn obeys_from_spec() -> bool {
        true
    }

    open spec fn from_spec(val: TemplateExpression) -> Expression {
        Expression::Template(val)
    }
}

impl From<SpreadExpression> for Expression {
    fn from(val: SpreadExpression) -> Expression {
        Expression::Spread(val)
    }
}

impl vstd::std_specs::convert::FromSpecImpl<SpreadExpression> for Expression {
    open spec fn obeys_from_spec() -> bool {
        true
    }

    open spec fn from_spec(val: SpreadExpression) -> Expression {
        Expression::Spread(val)
    }
}

impl From<ArrowExpression> for Expression {
    fn from(val: ArrowExpression) -> Expression {
        Expression::Arrow(val)
    }
}

impl vstd::std_specs::convert::FromSpecImpl<ArrowExpression> for Expression {
    open spec fn obeys_from_spec() -> bool {
        true
    }

    open spec fn from_spec(val: ArrowExpression) -> Expression {
        Expression::Arrow(val)
    }
}

impl From<ObjectExpression> for Expression {
    fn from(val: ObjectExpression) -> Expression {
        Expression::Object(val)
    }
}

impl vstd::std_specs::convert::FromSpecImpl<ObjectExpression> for Expression {
    open spec fn obeys_from_spec() -> bool {
        true
    }

    open spec fn from_spec(val: ObjectExpression) -> Expression {
        Expression::Object(val)
    }
}

impl From<FunctionExpression> for Expression {
    fn from(val: FunctionExpression) -> Expression {
        Expression::Function(val)
    }
}

impl vstd::std_specs::convert::FromSpecImpl<FunctionExpression> for Expression {
    open spec fn obeys_from_spec() -> bool {
        true
    }

    open spec fn from_spec(val: FunctionExpression) -> Expression {
        Expression::Function(val)
    }
}

impl From<ClassExpression> for Expression {
    fn from(val: ClassExpression) -> Expression {
        Expression::Class(val)
    }
}

impl vstd::std_specs::convert::FromSpecImpl<ClassExpression> for Expression {
    open spec fn obeys_from_spec() -> bool {
        true
    }

    open spec fn from_spec(val: ClassExpression) -> Expression {
        Expression::Class(val)
    }
}

/// The kind of a variable declaration.
#[derive(Debug, Clone, Copy, PartialEq, Eq, Structural)]
pub enum DeclarationKind {
    Var,
    Let,
    Const,
}

/// One `name = value` (or bare `name`) of a declaration statement.
#[derive(Debug, Clone, PartialEq)]
pub struct Declarator {
    pub name: PatternPtr,
    pub value: Option<ExprPtr>,
}

/// `let a = 1, b;`
#[derive(Debug, Clone, PartialEq)]
pub struct DeclarationStatement {
    pub kind: DeclarationKind,
    pub declarators: Vec<Declarator>,
}

/// `return value;`
#[derive(Debug, Clone, PartialEq)]
pub struct ReturnStatement {
    pub value: Option<ExprPtr>,
}

/// `{ body... }` in statement position: opens a block scope.
#[derive(Debug, Clone, PartialEq)]
pub struct BlockStatement {
    pub body: Vec<StmtPtr>,
}

/// A function declaration: declares its name in the enclosing scope.
#[derive(Debug, Clone, PartialEq)]
pub struct FunctionStatement {
    pub name: Loc<String>,
    pub params: Vec<PatternPtr>,
    pub body: Vec<StmtPtr>,
}

/// A class declaration: declares its name in the enclosing scope.
#[derive(Debug, Clone, PartialEq)]
pub struct ClassStatement {
    pub name: Loc<String>,
    pub extends: Option<ExprPtr>,
    pub body: Vec<ClassMember>,
}

/// The statement union. As with expressions, `Error` stands in-band for a
/// malformed statement.
#[derive(Debug, Clone, PartialEq)]
pub enum Statement {
    Error,
    Empty,
    Expression(ExprPtr),
    Declaration(DeclarationStatement),
    Return(ReturnStatement),
    Block(BlockStatement),
    Function(FunctionStatement),
    Class(ClassStatement),
}

/// A destructuring target.
#[derive(Debug, Clone, PartialEq)]
pub enum Pattern {
    /// Placeholder for an elided or malformed target.
    Void,
    /// A plain binding: declares the name.
    Identifier(String),
    ObjectPattern { properties: Vec<PropertyPtr> },
    ArrayPattern { elements: Vec<PatternPtr> },
    RestElement { argument: PatternPtr },
    AssignmentPattern { left: PatternPtr, right: ExprPtr },
}

/// One slot of the arena: any node kind, with its source range.
#[derive(Debug, Clone, PartialEq)]
pub enum Node {
    Expr(Expression),
    Stmt(Statement),
    Pat(Pattern),
    Prop(Property),
    Key(PropertyKey),
}

/// The arena owning every node of one parse. Nodes are created once, by the
/// parser, and are immutable thereafter; the whole storage is dropped as a
/// unit. Allocation failure is fatal, as for any process-level
/// out-of-memory, not a recoverable error.
pub struct Arena {
    pub nodes: Vec<Loc<Node>>,
}

impl View for Arena {
    type V = Seq<Loc<Node>>;

    open spec fn view(&self) -> Seq<Loc<Node>> {
        self.nodes@
    }
}

/// The root handle the parser returns: the ordered list of top-level
/// statements of one source file.
#[derive(Debug, Clone, PartialEq)]
pub struct Module {
    pub body: Vec<StmtPtr>,
}

/// A handle is bounded when it points strictly below `bound`.
pub open spec fn expr_ptr_bounded(p: ExprPtr, bound: int) -> bool {
    (p.idx as int) < bound
}

pub open spec fn stmt_ptr_bounded(p: StmtPtr, bound: int) -> bool {
    (p.idx as int) < bound
}

pub open spec fn pattern_ptr_bounded(p: PatternPtr, bound: int) -> bool {
    (p.idx as int) < bound
}

pub open spec fn property_ptr_bounded(p: PropertyPtr, bound: int) -> bool {
    (p.idx as int) < bound
}

pub open spec fn key_ptr_bounded(p: PropertyKeyPtr, bound: int) -> bool {
    (p.idx as int) < bound
}

pub open spec fn expr_list_bounded(l: Seq<ExprPtr>, bound: int) -> bool {
    forall|k: int| 0 <= k < l.len() ==> expr_ptr_bounded(#[trigger] l[k], bound)
}

pub open spec fn stmt_list_bounded(l: Seq<StmtPtr>, bound: int) -> bool {
    forall|k: int| 0 <= k < l.len() ==> stmt_ptr_bounded(#[trigger] l[k], bound)
}

pub open spec fn pattern_list_bounded(l: Seq<PatternPtr>, bound: int) -> bool {
    forall|k: int| 0 <= k < l.len() ==> pattern_ptr_bounded(#[trigger] l[k], bound)
}

pub open spec fn property_list_bounded(l: Seq<PropertyPtr>, bound: int) -> bool {
    forall|k: int| 0 <= k < l.len() ==> property_ptr_bounded(#[trigger] l[k], bound)
}

pub open spec fn opt_expr_bounded(o: Option<ExprPtr>, bound: int) -> bool {
    match o {
        Option::Some(p) => expr_ptr_bounded(p, bound),
        Option::None => true,
    }
}

pub open spec fn method_function_bounded(f: MethodFunction, bound: int) -> bool {
    pattern_list_bounded(f.params@, bound) && stmt_list_bounded(f.body@, bound)
}

pub open spec fn class_members_bounded(l: Seq<ClassMember>, bound: int) -> bool {
    forall|k: int| 0 <= k < l.len() ==> class_member_bounded(#[trigger] l[k], bound)
}

pub open spec fn class_member_bounded(m: ClassMember, bound: int) -> bool {
    match m {
        ClassMember::Error => true,
        ClassMember::Method { key, value } => {
            key_ptr_bounded(key, bound) && method_function_bounded(value, bound)
        },
    }
}

pub open spec fn declarators_bounded(l: Seq<Declarator>, bound: int) -> bool {
    forall|k: int| 0 <= k < l.len() ==> declarator_bounded(#[trigger] l[k], bound)
}

pub open spec fn declarator_bounded(d: Declarator, bound: int) -> bool {
    pattern_ptr_bounded(d.name, bound) && opt_expr_bounded(d.value, bound)
}

/// Every handle held by this expression points strictly below slot `i`, and
/// a template holds exactly one more quasi than substitution expressions.
pub open spec fn expr_wf_at(e: Expression, i: int) -> bool {
    match e {
        Expression::Error => true,
        Expression::Void => true,
        Expression::This(_) => true,
        Expression::Identifier(_) => true,
        Expression::Literal(_) => true,
        Expression::Sequence(s) => expr_list_bounded(s.body@, i),
        Expression::Array(s) => expr_list_bounded(s.body@, i),
        Expression::Member(m) => expr_ptr_bounded(m.object, i),
        Expression::ComputedMember(m) => {
            expr_ptr_bounded(m.object, i) && expr_ptr_bounded(m.property, i)
        },
        Expression::Call(c) => {
            expr_ptr_bounded(c.callee, i) && expr_list_bounded(c.arguments@, i)
        },
        Expression::Binary(b) => expr_ptr_bounded(b.left, i) && expr_ptr_bounded(b.right, i),
        Expression::Prefix(p) => expr_ptr_bounded(p.operand, i),
        Expression::Postfix(p) => expr_ptr_bounded(p.operand, i),
        Expression::Conditional(c) => {
            expr_ptr_bounded(c.test, i) && expr_ptr_bounded(c.consequent, i)
                && expr_ptr_bounded(c.alternate, i)
        },
        Expression::Template(t) => {
            opt_expr_bounded(t.tag, i) && expr_list_bounded(t.expressions@, i)
                && t.quasis@.len() == t.expressions@.len() + 1
        },
        Expression::Spread(s) => expr_ptr_bounded(s.argument, i),
        Expression::Arrow(arr) => {
            pattern_list_bounded(arr.params@, i) && match arr.body {
                ArrowBody::Expression(p) => expr_ptr_bounded(p, i),
                ArrowBody::Block(b) => stmt_list_bounded(b@, i),
            }
        },
        Expression::Object(o) => property_list_bounded(o.body@, i),
        Expression::Function(f) => {
            pattern_list_bounded(f.params@, i) && stmt_list_bounded(f.body@, i)
        },
        Expression::Class(c) => {
            opt_expr_bounded(c.extends, i) && class_members_bounded(c.body@, i)
        },
    }
}

pub open spec fn stmt_wf_at(s: Statement, i: int) -> bool {
    match s {
        Statement::Error => true,
        Statement::Empty => true,
        Statement::Expression(p) => expr_ptr_bounded(p, i),
        Statement::Declaration(d) => declarators_bounded(d.declarators@, i),
        Statement::Return(r) => opt_expr_bounded(r.value, i),
        Statement::Block(b) => stmt_list_bounded(b.body@, i),
        Statement::Function(f) => {
            pattern_list_bounded(f.params@, i) && stmt_list_bounded(f.body@, i)
        },
        Statement::Class(c) => {
            opt_expr_bounded(c.extends, i) && class_members_bounded(c.body@, i)
        },
    }
}

pub open spec fn pattern_wf_at(p: Pattern, i: int) -> bool {
    match p {
        Pattern::Void => true,
        Pattern::Identifier(_) => true,
        Pattern::ObjectPattern { properties } => property_list_bounded(properties@, i),
        Pattern::ArrayPattern { elements } => pattern_list_bounded(elements@, i),
        Pattern::RestElement { argument } => pattern_ptr_bounded(argument, i),
        Pattern::AssignmentPattern { left, right } => {
            pattern_ptr_bounded(left, i) && expr_ptr_bounded(right, i)
        },
    }
}

pub open spec fn property_wf_at(p: Property, i: int) -> bool {
    match p {
        Property::Shorthand(_) => true,
        Property::Literal { key, value } => {
            key_ptr_bounded(key, i) && expr_ptr_bounded(value, i)
        },
        Property::Method { key, value } => {
            key_ptr_bounded(key, i) && method_function_bounded(value, i)
        },
    }
}

pub open spec fn key_wf_at(k: PropertyKey, i: int) -> bool {
    match k {
        PropertyKey::Computed(e) => expr_ptr_bounded(e, i),
        PropertyKey::Literal(_) => true,
        PropertyKey::Binary(_) => true,
    }
}

pub open spec fn node_wf_at(n: Node, i: int) -> bool {
    match n {
        Node::Expr(e) => expr_wf_at(e, i),
        Node::Stmt(s) => stmt_wf_at(s, i),
        Node::Pat(p) => pattern_wf_at(p, i),
        Node::Prop(p) => property_wf_at(p, i),
        Node::Key(k) => key_wf_at(k, i),
    }
}

/// Well-formedness of a whole arena: every node's children stand strictly
/// below the node itself. The parser establishes this by allocating
/// bottom-up; [`Arena::new`] and the `alloc_*` methods preserve it.
pub open spec fn wf(a: Seq<Loc<Node>>) -> bool {
    forall|i: int| 0 <= i < a.len() ==> node_wf_at((#[trigger] a[i]).item, i)
}

/// A module is bound to an arena when each of its top-level statements is a
/// slot of that arena.
pub open spec fn module_wf(m: Module, a: Seq<Loc<Node>>) -> bool {
    stmt_list_bounded(m.body@, a.len() as int)
}

impl Arena {
    /// An empty arena, trivially well-formed.
    pub fn new() -> (a: Arena)
        ensures
            a@ =~= Seq::<Loc<Node>>::empty(),
            wf(a@),
    {
        Arena { nodes: Vec::new() }
    }

    /// Number of slots allocated so far.
    pub fn len(&self) -> (n: usize)
        ensures
            n == self@.len(),
    {
        self.nodes.len()
    }

    /// Store an expression whose children already live in this arena; the
    /// returned handle points at the new topmost slot.
    pub fn alloc_expr(&mut self, start: u32, end: u32, e: Expression) -> (p: ExprPtr)
        requires
            expr_wf_at(e, old(self)@.len() as int),
        ensures
            final(self)@ == old(self)@.push(Loc { start, end, item: Node::Expr(e) }),
            p.idx == old(self)@.len(),
            wf(old(self)@) ==> wf(final(self)@),
    {
        let p = ExprPtr { idx: self.nodes.len() };
        let ghost pre = self.nodes@;
        let ghost node = Node::Expr(e);
        self.nodes.push(Loc { start, end, item: Node::Expr(e) });
        proof {
            lemma_wf_push(pre, Loc { start, end, item: node });
        }
        p
    }

    /// Store a statement whose children already live in this arena.
    pub fn alloc_stmt(&mut self, start: u32, end: u32, s: Statement) -> (p: StmtPtr)
        requires
            stmt_wf_at(s, old(self)@.len() as int),
        ensures
            final(self)@ == old(self)@.push(Loc { start, end, item: Node::Stmt(s) }),
            p.idx == old(self)@.len(),
            wf(old(self)@) ==> wf(final(self)@),
    {
        let p = StmtPtr { idx: self.nodes.len() };
        let ghost pre = self.nodes@;
        let ghost node = Node::Stmt(s);
        self.nodes.push(Loc { start, end, item: Node::Stmt(s) });
        proof {
            lemma_wf_push(pre, Loc { start, end, item: node });
        }
        p
    }

    /// Store a pattern whose children already live in this arena.
    pub fn alloc_pattern(&mut self, start: u32, end: u32, pat: Pattern) -> (p: PatternPtr)
        requires
            pattern_wf_at(pat, old(self)@.len() as int),
        ensures
            final(self)@ == old(self)@.push(Loc { start, end, item: Node::Pat(pat) }),
            p.idx == old(self)@.len(),
            wf(old(self)@) ==> wf(final(self)@),
    {
        let p = PatternPtr { idx: self.nodes.len() };
        let ghost pre = self.nodes@;
        let ghost node = Node::Pat(pat);
        self.nodes.push(Loc { start, end, item: Node::Pat(pat) });
        proof {
            lemma_wf_push(pre, Loc { start, end, item: node });
        }
        p
    }

    /// Store an object-literal property whose children already live in this
    /// arena.
    pub fn alloc_property(&mut self, start: u32, end: u32, prop: Property) -> (p: PropertyPtr)
        requires
            property_wf_at(prop, old(self)@.len() as int),
        ensures
            final(self)@ == old(self)@.push(Loc { start, end, item: Node::Prop(prop) }),
            p.idx == old(self)@.len(),
            wf(old(self)@) ==> wf(final(self)@),
    {
        let p = PropertyPtr { idx: self.nodes.len() };
        let ghost pre = self.nodes@;
        let ghost node = Node::Prop(prop);
        self.nodes.push(Loc { start, end, item: Node::Prop(prop) });
        proof {
            lemma_wf_push(pre, Loc { start, end, item: node });
        }
        p
    }

    /// Store a property key whose children already live in this arena.
    pub fn alloc_key(&mut self, start: u32, end: u32, key: PropertyKey) -> (p: PropertyKeyPtr)
        requires
            key_wf_at(key, old(self)@.len() as int),
        ensures
            final(self)@ == old(self)@.push(Loc { start, end, item: Node::Key(key) }),
            p.idx == old(self)@.len(),
            wf(old(self)@) ==> wf(final(self)@),
    {
        let p = PropertyKeyPtr { idx: self.nodes.len() };
        let ghost pre = self.nodes@;
        let ghost node = Node::Key(key);
        self.nodes.push(Loc { start, end, item: Node::Key(key) });
        proof {
            lemma_wf_push(pre, Loc { start, end, item: node });
        }
        p
    }
}

/// Round-trip invariant of template literals: in a well-formed arena every
/// template expression holds exactly one more string segment than
/// substitution expressions, whatever else the arena holds.
pub proof fn lemma_template_interleaving(a: Seq<Loc<Node>>, i: int, t: TemplateExpression)
    requires
        wf(a),
        0 <= i < a.len(),
        a[i].item == Node::Expr(Expression::Template(t)),
    ensures
        t.quasis@.len() == t.expressions@.len() + 1,
{
    assert(node_wf_at(a[i].item, i));
}

/// Appending a node whose children all stand below the former top keeps the
/// arena well-formed: the old slots are untouched and the new slot's
/// children are below it.
proof fn lemma_wf_push(a: Seq<Loc<Node>>, x: Loc<Node>)
    requires
        node_wf_at(x.item, a.len() as int),
    ensures
        wf(a) ==> wf(a.push(x)),
{
    if wf(a) {
        assert forall|i: int| 0 <= i < a.push(x).len() implies node_wf_at(
            (#[trigger] a.push(x)[i]).item,
            i,
        ) by {
            if i < a.len() {
                assert(a.push(x)[i] == a[i]);
            } else {
                assert(a.push(x)[i] == x);
            }
        }
    }
}

} // verus!
