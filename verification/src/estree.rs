//! ESTree-style description of nodes: each described node becomes a typed,
//! located JSON record — a fixed `type` tag, its `[start, end)` range and
//! kind-specific members. Only the literal-bearing subset of the tree has
//! a description in this core (identifiers, literals, templates, the
//! destructuring patterns and property keys); everything else is reported
//! through a typed, recoverable error, never by terminating the process.

use vstd::prelude::*;
use crate::ast::Arena;
use crate::ast::Expression;
use crate::ast::ExprPtr;
use crate::ast::Literal;
use crate::ast::Loc;
use crate::ast::Module;
use crate::ast::Node;
use crate::ast::Pattern;
use crate::ast::PatternPtr;
use crate::ast::PropertyKey;
use crate::ast::PropertyKeyPtr;
use crate::ast::Statement;
use crate::ast::StmtPtr;
use crate::ast::TemplateExpression;
use crate::ast::node_wf_at;
use crate::ast::wf;
use crate::json::JsonValue;
use crate::json::is_bool_field;
use crate::json::is_num_field;
use crate::json::is_str_field;

verus! {

/// Why a description could not be produced.
#[derive(Debug, Clone, Copy, PartialEq)]
pub enum DescribeError {
    /// A regular-expression literal does not contain its closing
    /// delimiter, so no pattern/flags split exists.
    MalformedRegEx,
    /// The walk reached a node kind that has no serialized form in this
    /// core.
    Unsupported,
}

/// The pattern/flags split of a regular-expression literal.
#[derive(Debug, Clone, PartialEq)]
pub struct RegExLiteral {
    pub pattern: String,
    pub flags: String,
}

/// The largest index in `[1, upto)` holding `'/'`, or `0` when there is
/// none: the position of the closing delimiter of a regex literal.
pub open spec fn last_slash_upto(s: Seq<char>, upto: int) -> int
    decreases upto,
{
    if upto <= 1 {
        0
    } else if s[upto - 1] == '/' {
        upto - 1
    } else {
        last_slash_upto(s, upto - 1)
    }
}

/// The delimiter position is always inside `[0, upto)` (and never index 0
/// unless it stands for "none").
pub proof fn lemma_last_slash_range(s: Seq<char>, upto: int)
    ensures
        0 <= last_slash_upto(s, upto),
        last_slash_upto(s, upto) < upto || last_slash_upto(s, upto) == 0,
    decreases upto,
{
    if upto > 1 && s[upto - 1] != '/' {
        lemma_last_slash_range(s, upto - 1);
    }
}

/// Split a regular-expression literal `"/pattern/flags"` at its last
/// delimiter. The split exists exactly when some `'/'` stands after the
/// opening one; a literal without it is malformed and yields the typed
/// error rather than a crash.
pub fn parse_regex(value: &str) -> (r: Result<RegExLiteral, DescribeError>)
    ensures
        match r {
            Result::Ok(lit) => {
                let e = last_slash_upto(value@, value@.len() as int);
                &&& e >= 1
                &&& lit.pattern@ == value@.subrange(1, e)
                &&& lit.flags@ == value@.subrange(e + 1, value@.len() as int)
            },
            Result::Err(err) => {
                &&& last_slash_upto(value@, value@.len() as int) == 0
                &&& err == DescribeError::MalformedRegEx
            },
        },
{
    let ghost s = value@;
    let n = value.unicode_len();
    if n < 2 {
        return Err(DescribeError::MalformedRegEx);
    }
    let mut end: usize = 0;
    let mut i: usize = 1;
    while i < n
        invariant
            s == value@,
            n == s.len(),
            1 <= i <= n,
            end == last_slash_upto(s, i as int),
        decreases n - i,
    {
        if value.get_char(i) == '/' {
            end = i;
        }
        proof {
            assert(last_slash_upto(s, i as int + 1) == if s[i as int] == '/' {
                i as int
            } else {
                last_slash_upto(s, i as int)
            });
        }
        i = i + 1;
    }
    proof {
        lemma_last_slash_range(s, n as int);
    }
    if end == 0 {
        return Err(DescribeError::MalformedRegEx);
    }
    let pattern = value.substring_char(1, end).to_owned();
    let flags = value.substring_char(end + 1, n).to_owned();
    Ok(RegExLiteral { pattern, flags })
}

/// One string segment of a template literal, with the flag telling whether
/// it is the closing (tail) segment.
#[derive(Debug, Clone, PartialEq)]
pub struct TemplateElement {
    pub tail: bool,
    pub value: String,
}

/// A template literal reduced to its serialized parts: located string
/// segments interleaved with the substitution expressions.
#[derive(Debug, Clone, PartialEq)]
pub struct TemplateLiteral {
    pub quasis: Vec<Loc<TemplateElement>>,
    pub expressions: Vec<ExprPtr>,
}

/// The raw/cooked pair a template segment serializes as; this core keeps
/// segments as source text, so the two sides coincide.
#[derive(Debug, Clone, PartialEq)]
pub struct TemplateElementValue {
    pub raw: String,
    pub cooked: String,
}

/// The serialized value of one template segment.
pub fn template_element_value(e: &TemplateElement) -> (v: TemplateElementValue)
    ensures
        v.raw@ == e.value@,
        v.cooked@ == e.value@,
{
    TemplateElementValue { raw: e.value.clone(), cooked: e.value.clone() }
}

/// Reduce a template expression to its serialized parts: every segment
/// keeps its text and range, and the closing segment — exactly the last
/// one — is the only one flagged as tail.
pub fn template_literal_parts(t: &TemplateExpression) -> (r: TemplateLiteral)
    ensures
        r.quasis@.len() == t.quasis@.len(),
        forall|j: int|
            0 <= j < r.quasis@.len() ==> {
                &&& (#[trigger] r.quasis@[j]).start == t.quasis@[j].start
                &&& r.quasis@[j].end == t.quasis@[j].end
                &&& r.quasis@[j].item.value@ == t.quasis@[j].item@
                &&& r.quasis@[j].item.tail == (j == t.quasis@.len() - 1)
            },
        r.expressions@ == t.expressions@,
{
    let mut quasis: Vec<Loc<TemplateElement>> = Vec::new();
    let total = t.quasis.len();
    let mut k: usize = 0;
    while k < total
        invariant
            total == t.quasis@.len(),
            k <= total,
            quasis@.len() == k,
            forall|j: int|
                0 <= j < k ==> {
                    &&& (#[trigger] quasis@[j]).start == t.quasis@[j].start
                    &&& quasis@[j].end == t.quasis@[j].end
                    &&& quasis@[j].item.value@ == t.quasis@[j].item@
                    &&& quasis@[j].item.tail == (j == total - 1)
                },
        decreases total - k,
    {
        let q = &t.quasis[k];
        let tail = k == total - 1;
        quasis.push(Loc { start: q.start, end: q.end, item: TemplateElement { tail, value: q.item.clone() } });
        k = k + 1;
    }
    TemplateLiteral { quasis, expressions: t.expressions.clone() }
}

/// The `type` tag a literal serializes under: plain string literals have a
/// tag of their own.
pub open spec fn literal_type_name(lit: Literal) -> Seq<char> {
    if lit is String {
        "StringLiteral"@
    } else {
        "Literal"@
    }
}

/// The `value` (or, for a regex, `regex`) member a literal serializes as.
pub open spec fn literal_value_ok(lit: Literal, f: (String, JsonValue)) -> bool {
    match lit {
        Literal::Undefined => is_str_field(f, "value"@, "undefined"@),
        Literal::Null => is_str_field(f, "value"@, "null"@),
        Literal::True => is_bool_field(f, "value"@, true),
        Literal::False => is_bool_field(f, "value"@, false),
        Literal::Number(n) => is_str_field(f, "value"@, n@),
        Literal::Binary(n) => is_str_field(f, "value"@, n@),
        Literal::String(s) => is_str_field(f, "value"@, s@),
        Literal::RegEx(s) => f.0@ == "regex"@ && is_regex_record(f.1, s@),
        Literal::Template(_) => false,
    }
}

/// `{ "pattern": ..., "flags": ... }` for a regex literal, split at its
/// last delimiter.
pub open spec fn is_regex_record(r: JsonValue, source: Seq<char>) -> bool {
    let e = last_slash_upto(source, source.len() as int);
    &&& r matches JsonValue::Obj(fields)
    &&& fields@.len() == 2
    &&& is_str_field(fields@[0], "pattern"@, source.subrange(1, e))
    &&& is_str_field(fields@[1], "flags"@, source.subrange(e + 1, source.len() as int))
}

/// `{ "type": "Identifier", "name": ..., "start": ..., "end": ... }`.
pub open spec fn is_identifier_record(r: JsonValue, name: Seq<char>, start: u32, end: u32) -> bool {
    &&& r matches JsonValue::Obj(fields)
    &&& fields@.len() == 4
    &&& is_str_field(fields@[0], "type"@, "Identifier"@)
    &&& is_str_field(fields@[1], "name"@, name)
    &&& is_num_field(fields@[2], "start"@, start as u64)
    &&& is_num_field(fields@[3], "end"@, end as u64)
}

/// The `{ "raw": ..., "cooked": ... }` pair of one template segment.
pub open spec fn is_template_value_record(r: JsonValue, text: Seq<char>) -> bool {
    &&& r matches JsonValue::Obj(fields)
    &&& fields@.len() == 2
    &&& is_str_field(fields@[0], "raw"@, text)
    &&& is_str_field(fields@[1], "cooked"@, text)
}

/// One serialized template segment, with its tail flag and range.
pub open spec fn is_template_element_record(
    r: JsonValue,
    text: Seq<char>,
    tail: bool,
    start: u32,
    end: u32,
) -> bool {
    &&& r matches JsonValue::Obj(fields)
    &&& fields@.len() == 5
    &&& is_str_field(fields@[0], "type"@, "TemplateElement"@)
    &&& is_bool_field(fields@[1], "tail"@, tail)
    &&& fields@[2].0@ == "value"@ && is_template_value_record(fields@[2].1, text)
    &&& is_num_field(fields@[3], "start"@, start as u64)
    &&& is_num_field(fields@[4], "end"@, end as u64)
}

/// A template literal without substitutions, as a literal token
/// serializes: one tail segment spanning no range, no expressions.
pub open spec fn is_single_quasi_template_record(
    r: JsonValue,
    text: Seq<char>,
    start: u32,
    end: u32,
) -> bool {
    &&& r matches JsonValue::Obj(fields)
    &&& fields@.len() == 5
    &&& is_str_field(fields@[0], "type"@, "TemplateLiteral"@)
    &&& fields@[1].0@ == "quasis"@ && (fields@[1].1 matches JsonValue::Arr(q) && q@.len() == 1
        && is_template_element_record(q@[0], text, true, 0, 0))
    &&& fields@[2].0@ == "expressions"@ && (fields@[2].1 matches JsonValue::Arr(es) && es@.len()
        == 0)
    &&& is_num_field(fields@[3], "start"@, start as u64)
    &&& is_num_field(fields@[4], "end"@, end as u64)
}

/// A literal's whole located record.
pub open spec fn is_literal_record(r: JsonValue, lit: Literal, start: u32, end: u32) -> bool {
    match lit {
        Literal::Template(text) => is_single_quasi_template_record(r, text@, start, end),
        _ => {
            &&& r matches JsonValue::Obj(fields)
            &&& fields@.len() == 4
            &&& is_str_field(fields@[0], "type"@, literal_type_name(lit))
            &&& literal_value_ok(lit, fields@[1])
            &&& is_num_field(fields@[2], "start"@, start as u64)
            &&& is_num_field(fields@[3], "end"@, end as u64)
        },
    }
}

/// A literal can be described unless it is a regex without its closing
/// delimiter.
pub open spec fn literal_describable(lit: Literal) -> bool {
    match lit {
        Literal::RegEx(s) => last_slash_upto(s@, s@.len() as int) >= 1,
        _ => true,
    }
}

/// All of a template's substitution expressions can be described.
pub open spec fn template_exprs_describable(
    a: Seq<Loc<Node>>,
    exprs: Seq<ExprPtr>,
    bound: int,
) -> bool
    decreases bound, 1int,
{
    forall|j: int|
        0 <= j < exprs.len() ==> ((#[trigger] exprs[j]).idx < bound && expr_describable(
            a,
            exprs[j].idx as int,
        ))
}

/// A template can be described when its tag, if any, and all its
/// substitution expressions can.
pub open spec fn template_describable(a: Seq<Loc<Node>>, t: TemplateExpression, bound: int) -> bool
    decreases bound, 2int,
{
    &&& match t.tag {
        Option::Some(tag) => tag.idx < bound && expr_describable(a, tag.idx as int),
        Option::None => true,
    }
    &&& template_exprs_describable(a, t.expressions@, bound)
}

/// The describable subset of expressions: identifiers, literals and
/// templates, the node kinds whose serialized form this core defines.
pub open spec fn expr_describable(a: Seq<Loc<Node>>, i: int) -> bool
    decreases i, 3int,
{
    if 0 <= i < a.len() {
        match a[i].item {
            Node::Expr(e) => match e {
                Expression::Identifier(_) => true,
                Expression::Literal(lit) => literal_describable(lit),
                Expression::Template(t) => template_describable(a, t, i),
                _ => false,
            },
            _ => false,
        }
    } else {
        false
    }
}

/// A template literal record over the arena: segments in order, the last
/// and only the last flagged as tail, substitutions each described.
pub open spec fn is_plain_template_record(
    a: Seq<Loc<Node>>,
    t: TemplateExpression,
    start: u32,
    end: u32,
    bound: int,
    r: JsonValue,
) -> bool
    decreases bound, 1int,
{
    &&& r matches JsonValue::Obj(fields)
    &&& fields@.len() == 5
    &&& is_str_field(fields@[0], "type"@, "TemplateLiteral"@)
    &&& fields@[1].0@ == "quasis"@ && (fields@[1].1 matches JsonValue::Arr(q) && q@.len()
        == t.quasis@.len() && (forall|j: int|
        0 <= j < q@.len() ==> is_template_element_record(
            #[trigger] q@[j],
            t.quasis@[j].item@,
            j == q@.len() - 1,
            t.quasis@[j].start,
            t.quasis@[j].end,
        )))
    &&& fields@[2].0@ == "expressions"@ && (fields@[2].1 matches JsonValue::Arr(xs) && xs@.len()
        == t.expressions@.len() && (forall|j: int|
        0 <= j < xs@.len() ==> ((#[trigger] t.expressions@[j]).idx < bound && describes_expr(
            a,
            t.expressions@[j].idx as int,
            xs@[j],
        ))))
    &&& is_num_field(fields@[3], "start"@, start as u64)
    &&& is_num_field(fields@[4], "end"@, end as u64)
}

/// A template expression's record: tagged templates wrap the template
/// record and the tag's own record in a two-field node.
pub open spec fn describes_template(
    a: Seq<Loc<Node>>,
    t: TemplateExpression,
    start: u32,
    end: u32,
    bound: int,
    r: JsonValue,
) -> bool
    decreases bound, 2int,
{
    match t.tag {
        Option::Some(tag) => {
            &&& r matches JsonValue::Obj(fields)
            &&& fields@.len() == 5
            &&& is_str_field(fields@[0], "type"@, "TaggedTemplateExpression"@)
            &&& fields@[1].0@ == "tag"@ && tag.idx < bound && describes_expr(
                a,
                tag.idx as int,
                fields@[1].1,
            )
            &&& fields@[2].0@ == "quasi"@ && is_plain_template_record(
                a,
                t,
                0,
                0,
                bound,
                fields@[2].1,
            )
            &&& is_num_field(fields@[3], "start"@, start as u64)
            &&& is_num_field(fields@[4], "end"@, end as u64)
        },
        Option::None => is_plain_template_record(a, t, start, end, bound, r),
    }
}

/// The expression in slot `i` is described by `r`.
pub open spec fn describes_expr(a: Seq<Loc<Node>>, i: int, r: JsonValue) -> bool
    decreases i, 3int,
{
    if 0 <= i < a.len() {
        match a[i].item {
            Node::Expr(e) => match e {
                Expression::Identifier(name) => is_identifier_record(
                    r,
                    name@,
                    a[i].start,
                    a[i].end,
                ),
                Expression::Literal(lit) => is_literal_record(r, lit, a[i].start, a[i].end),
                Expression::Template(t) => describes_template(a, t, a[i].start, a[i].end, i, r),
                _ => false,
            },
            _ => false,
        }
    } else {
        false
    }
}

/// The describable statements: expression statements over describable
/// expressions.
pub open spec fn stmt_describable(a: Seq<Loc<Node>>, i: int) -> bool
    decreases i, 4int,
{
    if 0 <= i < a.len() {
        match a[i].item {
            Node::Stmt(s) => match s {
                Statement::Expression(e) => e.idx < i && expr_describable(a, e.idx as int),
                _ => false,
            },
            _ => false,
        }
    } else {
        false
    }
}

/// The statement in slot `i` is described by `r`.
pub open spec fn describes_stmt(a: Seq<Loc<Node>>, i: int, r: JsonValue) -> bool
    decreases i, 4int,
{
    if 0 <= i < a.len() {
        match a[i].item {
            Node::Stmt(s) => match s {
                Statement::Expression(e) => {
                    &&& r matches JsonValue::Obj(fields)
                    &&& fields@.len() == 4
                    &&& is_str_field(fields@[0], "type"@, "ExpressionStatement"@)
                    &&& fields@[1].0@ == "expression"@ && e.idx < i && describes_expr(
                        a,
                        e.idx as int,
                        fields@[1].1,
                    )
                    &&& is_num_field(fields@[2], "start"@, a[i].start as u64)
                    &&& is_num_field(fields@[3], "end"@, a[i].end as u64)
                },
                _ => false,
            },
            _ => false,
        }
    } else {
        false
    }
}

/// A module can be described when each of its statements can.
pub open spec fn module_describable(a: Seq<Loc<Node>>, m: Module) -> bool {
    forall|j: int|
        0 <= j < m.body@.len() ==> ((#[trigger] m.body@[j]).idx < a.len() && stmt_describable(
            a,
            m.body@[j].idx as int,
        ))
}

/// The whole program record: its statements in order, spanning no range
/// of its own.
pub open spec fn describes_module(a: Seq<Loc<Node>>, m: Module, r: JsonValue) -> bool {
    &&& r matches JsonValue::Obj(fields)
    &&& fields@.len() == 4
    &&& is_str_field(fields@[0], "type"@, "Program"@)
    &&& fields@[1].0@ == "body"@ && (fields@[1].1 matches JsonValue::Arr(body) && body@.len()
        == m.body@.len() && (forall|j: int|
        0 <= j < body@.len() ==> ((#[trigger] m.body@[j]).idx < a.len() && describes_stmt(
            a,
            m.body@[j].idx as int,
            body@[j],
        ))))
    &&& is_num_field(fields@[2], "start"@, 0)
    &&& is_num_field(fields@[3], "end"@, 0)
}

/// The describable patterns: plain identifiers, array patterns of
/// describable elements and defaults over describable halves.
pub open spec fn pattern_describable(a: Seq<Loc<Node>>, i: int) -> bool
    decreases i, 4int,
{
    if 0 <= i < a.len() {
        match a[i].item {
            Node::Pat(p) => match p {
                Pattern::Identifier(_) => true,
                Pattern::ArrayPattern { elements } => forall|j: int|
                    0 <= j < elements@.len() ==> ((#[trigger] elements@[j]).idx < i
                        && pattern_describable(a, elements@[j].idx as int)),
                Pattern::AssignmentPattern { left, right } => {
                    &&& left.idx < i && pattern_describable(a, left.idx as int)
                    &&& right.idx < i && expr_describable(a, right.idx as int)
                },
                _ => false,
            },
            _ => false,
        }
    } else {
        false
    }
}

/// The pattern in slot `i` is described by `r`.
pub open spec fn describes_pattern(a: Seq<Loc<Node>>, i: int, r: JsonValue) -> bool
    decreases i, 4int,
{
    if 0 <= i < a.len() {
        match a[i].item {
            Node::Pat(p) => match p {
                Pattern::Identifier(name) => is_identifier_record(r, name@, a[i].start, a[i].end),
                Pattern::ArrayPattern { elements } => {
                    &&& r matches JsonValue::Obj(fields)
                    &&& fields@.len() == 4
                    &&& is_str_field(fields@[0], "type"@, "ArrayPattern"@)
                    &&& fields@[1].0@ == "elements"@ && (fields@[1].1 matches JsonValue::Arr(els)
                        && els@.len() == elements@.len() && (forall|j: int|
                        0 <= j < els@.len() ==> ((#[trigger] elements@[j]).idx < i
                            && describes_pattern(a, elements@[j].idx as int, els@[j]))))
                    &&& is_num_field(fields@[2], "start"@, a[i].start as u64)
                    &&& is_num_field(fields@[3], "end"@, a[i].end as u64)
                },
                Pattern::AssignmentPattern { left, right } => {
                    &&& r matches JsonValue::Obj(fields)
                    &&& fields@.len() == 5
                    &&& is_str_field(fields@[0], "type"@, "AssignmentPattern"@)
                    &&& fields@[1].0@ == "left"@ && left.idx < i && describes_pattern(
                        a,
                        left.idx as int,
                        fields@[1].1,
                    )
                    &&& fields@[2].0@ == "right"@ && right.idx < i && describes_expr(
                        a,
                        right.idx as int,
                        fields@[2].1,
                    )
                    &&& is_num_field(fields@[3], "start"@, a[i].start as u64)
                    &&& is_num_field(fields@[4], "end"@, a[i].end as u64)
                },
                _ => false,
            },
            _ => false,
        }
    } else {
        false
    }
}

/// Build `{ "type": "Identifier", "name": ..., "start": ..., "end": ... }`.
fn build_identifier_record(name: &str, start: u32, end: u32) -> (r: JsonValue)
    ensures
        is_identifier_record(r, name@, start, end),
{
    let mut fields: Vec<(String, JsonValue)> = Vec::new();
    fields.push(("type".to_owned(), JsonValue::Str("Identifier".to_owned())));
    fields.push(("name".to_owned(), JsonValue::Str(name.to_owned())));
    fields.push(("start".to_owned(), JsonValue::Num(start as u64)));
    fields.push(("end".to_owned(), JsonValue::Num(end as u64)));
    JsonValue::Obj(fields)
}

/// Build one serialized template segment.
fn build_template_element_record(text: &str, tail: bool, start: u32, end: u32) -> (r: JsonValue)
    ensures
        is_template_element_record(r, text@, tail, start, end),
{
    let mut value_fields: Vec<(String, JsonValue)> = Vec::new();
    value_fields.push(("raw".to_owned(), JsonValue::Str(text.to_owned())));
    value_fields.push(("cooked".to_owned(), JsonValue::Str(text.to_owned())));
    let mut fields: Vec<(String, JsonValue)> = Vec::new();
    fields.push(("type".to_owned(), JsonValue::Str("TemplateElement".to_owned())));
    fields.push(("tail".to_owned(), JsonValue::Bool(tail)));
    fields.push(("value".to_owned(), JsonValue::Obj(value_fields)));
    fields.push(("start".to_owned(), JsonValue::Num(start as u64)));
    fields.push(("end".to_owned(), JsonValue::Num(end as u64)));
    JsonValue::Obj(fields)
}

/// Describe a literal token as its located record. Success is owed for
/// every literal but a regex missing its closing delimiter, which yields
/// the typed error instead.
pub fn describe_literal(lit: &Literal, start: u32, end: u32) -> (r: Result<
    JsonValue,
    DescribeError,
>)
    ensures
        match r {
            Result::Ok(j) => literal_describable(*lit) && is_literal_record(j, *lit, start, end),
            Result::Err(err) => !literal_describable(*lit) && err == DescribeError::MalformedRegEx,
        },
{
    match lit {
        Literal::Template(text) => {
            let mut quasis: Vec<JsonValue> = Vec::new();
            quasis.push(build_template_element_record(text.as_str(), true, 0, 0));
            let exprs: Vec<JsonValue> = Vec::new();
            let mut fields: Vec<(String, JsonValue)> = Vec::new();
            fields.push(("type".to_owned(), JsonValue::Str("TemplateLiteral".to_owned())));
            fields.push(("quasis".to_owned(), JsonValue::Arr(quasis)));
            fields.push(("expressions".to_owned(), JsonValue::Arr(exprs)));
            fields.push(("start".to_owned(), JsonValue::Num(start as u64)));
            fields.push(("end".to_owned(), JsonValue::Num(end as u64)));
            Ok(JsonValue::Obj(fields))
        },
        _ => {
            let tag_text: &str = match lit {
                Literal::String(_) => "StringLiteral",
                _ => "Literal",
            };
            let value_field: (String, JsonValue) = match lit {
                Literal::Undefined => ("value".to_owned(), JsonValue::Str("undefined".to_owned())),
                Literal::Null => ("value".to_owned(), JsonValue::Str("null".to_owned())),
                Literal::True => ("value".to_owned(), JsonValue::Bool(true)),
                Literal::False => ("value".to_owned(), JsonValue::Bool(false)),
                Literal::Number(n) => ("value".to_owned(), JsonValue::Str(n.clone())),
                Literal::Binary(n) => ("value".to_owned(), JsonValue::Str(n.clone())),
                Literal::String(s) => ("value".to_owned(), JsonValue::Str(s.clone())),
                Literal::RegEx(s) => {
                    match parse_regex(s.as_str()) {
                        Ok(split) => {
                            let mut regex_fields: Vec<(String, JsonValue)> = Vec::new();
                            regex_fields.push(("pattern".to_owned(), JsonValue::Str(split.pattern)));
                            regex_fields.push(("flags".to_owned(), JsonValue::Str(split.flags)));
                            ("regex".to_owned(), JsonValue::Obj(regex_fields))
                        },
                        Err(err) => {
                            return Err(err);
                        },
                    }
                },
                Literal::Template(_) => ("value".to_owned(), JsonValue::Null),
            };
            let mut fields: Vec<(String, JsonValue)> = Vec::new();
            fields.push(("type".to_owned(), JsonValue::Str(tag_text.to_owned())));
            fields.push(value_field);
            fields.push(("start".to_owned(), JsonValue::Num(start as u64)));
            fields.push(("end".to_owned(), JsonValue::Num(end as u64)));
            Ok(JsonValue::Obj(fields))
        },
    }
}

/// Build the template-literal record of a template expression: segments
/// with the tail flag on the last, substitutions each described.
fn build_plain_template_record(
    a: &Arena,
    t: &TemplateExpression,
    start: u32,
    end: u32,
    bound: Ghost<int>,
) -> (r: Result<JsonValue, DescribeError>)
    requires
        wf(a@),
        0 <= bound@ <= a@.len(),
        crate::ast::expr_list_bounded(t.expressions@, bound@),
    ensures
        match r {
            Result::Ok(j) => template_exprs_describable(a@, t.expressions@, bound@)
                && is_plain_template_record(a@, *t, start, end, bound@, j),
            Result::Err(_) => !template_exprs_describable(a@, t.expressions@, bound@),
        },
    decreases bound@, 1int,
{
    let total = t.quasis.len();
    let mut quasis: Vec<JsonValue> = Vec::new();
    let mut k: usize = 0;
    while k < total
        invariant
            total == t.quasis@.len(),
            k <= total,
            quasis@.len() == k,
            forall|j: int|
                0 <= j < k ==> is_template_element_record(
                    #[trigger] quasis@[j],
                    t.quasis@[j].item@,
                    j == total - 1,
                    t.quasis@[j].start,
                    t.quasis@[j].end,
                ),
        decreases total - k,
    {
        let q = &t.quasis[k];
        let tail = k == total - 1;
        quasis.push(build_template_element_record(q.item.as_str(), tail, q.start, q.end));
        k = k + 1;
    }
    let n_exprs = t.expressions.len();
    let mut exprs: Vec<JsonValue> = Vec::new();
    let mut k2: usize = 0;
    while k2 < n_exprs
        invariant
            wf(a@),
            0 <= bound@ <= a@.len(),
            crate::ast::expr_list_bounded(t.expressions@, bound@),
            n_exprs == t.expressions@.len(),
            k2 <= n_exprs,
            exprs@.len() == k2,
            forall|j: int|
                0 <= j < k2 ==> ((#[trigger] t.expressions@[j]).idx < bound@ && describes_expr(
                    a@,
                    t.expressions@[j].idx as int,
                    exprs@[j],
                ) && expr_describable(a@, t.expressions@[j].idx as int)),
        decreases n_exprs - k2,
    {
        proof {
            assert(crate::ast::expr_ptr_bounded(t.expressions@[k2 as int], bound@));
        }
        match describe_expression(a, t.expressions[k2]) {
            Ok(j) => {
                exprs.push(j);
            },
            Err(err) => {
                proof {
                    assert(!expr_describable(a@, t.expressions@[k2 as int].idx as int));
                }
                return Err(err);
            },
        }
        k2 = k2 + 1;
    }
    let mut fields: Vec<(String, JsonValue)> = Vec::new();
    fields.push(("type".to_owned(), JsonValue::Str("TemplateLiteral".to_owned())));
    fields.push(("quasis".to_owned(), JsonValue::Arr(quasis)));
    fields.push(("expressions".to_owned(), JsonValue::Arr(exprs)));
    fields.push(("start".to_owned(), JsonValue::Num(start as u64)));
    fields.push(("end".to_owned(), JsonValue::Num(end as u64)));
    Ok(JsonValue::Obj(fields))
}

/// Build the record of a template expression, wrapping the tagged form in
/// its two-field node.
fn build_template_record(
    a: &Arena,
    t: &TemplateExpression,
    start: u32,
    end: u32,
    bound: Ghost<int>,
) -> (r: Result<JsonValue, DescribeError>)
    requires
        wf(a@),
        0 <= bound@ <= a@.len(),
        crate::ast::opt_expr_bounded(t.tag, bound@),
        crate::ast::expr_list_bounded(t.expressions@, bound@),
    ensures
        match r {
            Result::Ok(j) => template_describable(a@, *t, bound@) && describes_template(
                a@,
                *t,
                start,
                end,
                bound@,
                j,
            ),
            Result::Err(_) => !template_describable(a@, *t, bound@),
        },
    decreases bound@, 2int,
{
    match &t.tag {
        Option::None => build_plain_template_record(a, t, start, end, bound),
        Option::Some(tag) => {
            let tag_record = match describe_expression(a, *tag) {
                Ok(j) => j,
                Err(err) => {
                    return Err(err);
                },
            };
            let quasi_record = match build_plain_template_record(a, t, 0, 0, bound) {
                Ok(j) => j,
                Err(err) => {
                    return Err(err);
                },
            };
            let mut fields: Vec<(String, JsonValue)> = Vec::new();
            fields.push(
                ("type".to_owned(), JsonValue::Str("TaggedTemplateExpression".to_owned())),
            );
            fields.push(("tag".to_owned(), tag_record));
            fields.push(("quasi".to_owned(), quasi_record));
            fields.push(("start".to_owned(), JsonValue::Num(start as u64)));
            fields.push(("end".to_owned(), JsonValue::Num(end as u64)));
            Ok(JsonValue::Obj(fields))
        },
    }
}

/// Describe the expression in slot `p`. Success is owed exactly on the
/// describable subset — identifiers, well-formed literals and templates
/// whose parts are themselves describable; the error reports the first
/// obstacle the walk meets.
pub fn describe_expression(a: &Arena, p: ExprPtr) -> (r: Result<JsonValue, DescribeError>)
    requires
        wf(a@),
        (p.idx as int) < a@.len(),
    ensures
        match r {
            Result::Ok(j) => expr_describable(a@, p.idx as int) && describes_expr(
                a@,
                p.idx as int,
                j,
            ),
            Result::Err(_) => !expr_describable(a@, p.idx as int),
        },
    decreases p.idx as int, 3int,
{
    proof {
        assert(node_wf_at(a@[p.idx as int].item, p.idx as int));
    }
    let start = a.nodes[p.idx].start;
    let end = a.nodes[p.idx].end;
    match &a.nodes[p.idx].item {
        Node::Expr(e) => match e {
            Expression::Identifier(name) => Ok(build_identifier_record(name.as_str(), start, end)),
            Expression::Literal(lit) => describe_literal(lit, start, end),
            Expression::Template(t) => build_template_record(
                a,
                t,
                start,
                end,
                Ghost(p.idx as int),
            ),
            _ => Err(DescribeError::Unsupported),
        },
        _ => Err(DescribeError::Unsupported),
    }
}

/// Describe the statement in slot `p`: expression statements only, as the
/// located wrapper of their expression's record.
pub fn describe_statement(a: &Arena, p: StmtPtr) -> (r: Result<JsonValue, DescribeError>)
    requires
        wf(a@),
        (p.idx as int) < a@.len(),
    ensures
        match r {
            Result::Ok(j) => stmt_describable(a@, p.idx as int) && describes_stmt(
                a@,
                p.idx as int,
                j,
            ),
            Result::Err(_) => !stmt_describable(a@, p.idx as int),
        },
    decreases p.idx as int, 4int,
{
    proof {
        assert(node_wf_at(a@[p.idx as int].item, p.idx as int));
    }
    let start = a.nodes[p.idx].start;
    let end = a.nodes[p.idx].end;
    match &a.nodes[p.idx].item {
        Node::Stmt(s) => match s {
            Statement::Expression(e) => {
                let inner = match describe_expression(a, *e) {
                    Ok(j) => j,
                    Err(err) => {
                        return Err(err);
                    },
                };
                let mut fields: Vec<(String, JsonValue)> = Vec::new();
                fields.push(("type".to_owned(), JsonValue::Str("ExpressionStatement".to_owned())));
                fields.push(("expression".to_owned(), inner));
                fields.push(("start".to_owned(), JsonValue::Num(start as u64)));
                fields.push(("end".to_owned(), JsonValue::Num(end as u64)));
                Ok(JsonValue::Obj(fields))
            },
            _ => Err(DescribeError::Unsupported),
        },
        _ => Err(DescribeError::Unsupported),
    }
}

/// Describe a whole module as its program record: every statement's
/// record in source order, the program itself spanning no range.
pub fn describe_module(a: &Arena, m: &Module) -> (r: Result<JsonValue, DescribeError>)
    requires
        wf(a@),
        crate::ast::module_wf(*m, a@),
    ensures
        match r {
            Result::Ok(j) => module_describable(a@, *m) && describes_module(a@, *m, j),
            Result::Err(_) => !module_describable(a@, *m),
        },
{
    let total = m.body.len();
    let mut body: Vec<JsonValue> = Vec::new();
    let mut k: usize = 0;
    while k < total
        invariant
            wf(a@),
            crate::ast::module_wf(*m, a@),
            total == m.body@.len(),
            k <= total,
            body@.len() == k,
            forall|j: int|
                0 <= j < k ==> ((#[trigger] m.body@[j]).idx < a@.len() && describes_stmt(
                    a@,
                    m.body@[j].idx as int,
                    body@[j],
                ) && stmt_describable(a@, m.body@[j].idx as int)),
        decreases total - k,
    {
        proof {
            assert(crate::ast::stmt_ptr_bounded(m.body@[k as int], a@.len() as int));
        }
        match describe_statement(a, m.body[k]) {
            Ok(j) => {
                body.push(j);
            },
            Err(err) => {
                return Err(err);
            },
        }
        k = k + 1;
    }
    let mut fields: Vec<(String, JsonValue)> = Vec::new();
    fields.push(("type".to_owned(), JsonValue::Str("Program".to_owned())));
    fields.push(("body".to_owned(), JsonValue::Arr(body)));
    fields.push(("start".to_owned(), JsonValue::Num(0)));
    fields.push(("end".to_owned(), JsonValue::Num(0)));
    Ok(JsonValue::Obj(fields))
}

/// Describe the pattern in slot `p`: identifiers, array patterns and
/// defaults; the object and rest forms have no serialized shape here.
pub fn describe_pattern(a: &Arena, p: PatternPtr) -> (r: Result<JsonValue, DescribeError>)
    requires
        wf(a@),
        (p.idx as int) < a@.len(),
    ensures
        match r {
            Result::Ok(j) => pattern_describable(a@, p.idx as int) && describes_pattern(
                a@,
                p.idx as int,
                j,
            ),
            Result::Err(_) => !pattern_describable(a@, p.idx as int),
        },
    decreases p.idx as int, 4int,
{
    proof {
        assert(node_wf_at(a@[p.idx as int].item, p.idx as int));
    }
    let start = a.nodes[p.idx].start;
    let end = a.nodes[p.idx].end;
    match &a.nodes[p.idx].item {
        Node::Pat(pat) => match pat {
            Pattern::Identifier(name) => Ok(build_identifier_record(name.as_str(), start, end)),
            Pattern::ArrayPattern { elements } => {
                let total = elements.len();
                let mut els: Vec<JsonValue> = Vec::new();
                let mut k: usize = 0;
                while k < total
                    invariant
                        wf(a@),
                        crate::ast::pattern_list_bounded(elements@, p.idx as int),
                        (p.idx as int) < a@.len(),
                        a@[p.idx as int].item == (Node::Pat(
                            Pattern::ArrayPattern { elements: *elements },
                        )),
                        total == elements@.len(),
                        k <= total,
                        els@.len() == k,
                        forall|j: int|
                            0 <= j < k ==> ((#[trigger] elements@[j]).idx < p.idx
                                && describes_pattern(a@, elements@[j].idx as int, els@[j])
                                && pattern_describable(a@, elements@[j].idx as int)),
                    decreases total - k,
                {
                    proof {
                        assert(crate::ast::pattern_ptr_bounded(elements@[k as int], p.idx as int));
                    }
                    match describe_pattern(a, elements[k]) {
                        Ok(j) => {
                            els.push(j);
                        },
                        Err(err) => {
                            proof {
                                assert(!pattern_describable(a@, elements@[k as int].idx as int));
                                assert(!pattern_describable(a@, p.idx as int)) by {
                                    if pattern_describable(a@, p.idx as int) {
                                        assert(elements@[k as int].idx < p.idx
                                            && pattern_describable(
                                            a@,
                                            elements@[k as int].idx as int,
                                        ));
                                    }
                                }
                            }
                            return Err(err);
                        },
                    }
                    k = k + 1;
                }
                let mut fields: Vec<(String, JsonValue)> = Vec::new();
                fields.push(("type".to_owned(), JsonValue::Str("ArrayPattern".to_owned())));
                fields.push(("elements".to_owned(), JsonValue::Arr(els)));
                fields.push(("start".to_owned(), JsonValue::Num(start as u64)));
                fields.push(("end".to_owned(), JsonValue::Num(end as u64)));
                Ok(JsonValue::Obj(fields))
            },
            Pattern::AssignmentPattern { left, right } => {
                let left_record = match describe_pattern(a, *left) {
                    Ok(j) => j,
                    Err(err) => {
                        return Err(err);
                    },
                };
                let right_record = match describe_expression(a, *right) {
                    Ok(j) => j,
                    Err(err) => {
                        return Err(err);
                    },
                };
                let mut fields: Vec<(String, JsonValue)> = Vec::new();
                fields.push(("type".to_owned(), JsonValue::Str("AssignmentPattern".to_owned())));
                fields.push(("left".to_owned(), left_record));
                fields.push(("right".to_owned(), right_record));
                fields.push(("start".to_owned(), JsonValue::Num(start as u64)));
                fields.push(("end".to_owned(), JsonValue::Num(end as u64)));
                Ok(JsonValue::Obj(fields))
            },
            _ => Err(DescribeError::Unsupported),
        },
        _ => Err(DescribeError::Unsupported),
    }
}

/// Object-literal properties have no serialized form in this core: the
/// walk reports every one of them as unsupported, in-band, instead of
/// failing abruptly.
pub fn describe_property(a: &Arena, p: crate::ast::PropertyPtr) -> (r: Result<
    JsonValue,
    DescribeError,
>)
    requires
        wf(a@),
        (p.idx as int) < a@.len(),
    ensures
        r == Result::<JsonValue, DescribeError>::Err(DescribeError::Unsupported),
{
    Err(DescribeError::Unsupported)
}

/// Describe the property key in slot `p`: a computed key serializes as its
/// expression's own record, a plain or numeric key as an identifier
/// spanning the key's range.
pub fn describe_property_key(a: &Arena, p: PropertyKeyPtr) -> (r: Result<JsonValue, DescribeError>)
    requires
        wf(a@),
        (p.idx as int) < a@.len(),
    ensures
        match r {
            Result::Ok(j) => key_describable(a@, p.idx as int) && describes_key(
                a@,
                p.idx as int,
                j,
            ),
            Result::Err(_) => !key_describable(a@, p.idx as int),
        },
    decreases p.idx as int, 4int,
{
    proof {
        assert(node_wf_at(a@[p.idx as int].item, p.idx as int));
    }
    let start = a.nodes[p.idx].start;
    let end = a.nodes[p.idx].end;
    match &a.nodes[p.idx].item {
        Node::Key(k) => match k {
            PropertyKey::Computed(e) => describe_expression(a, *e),
            PropertyKey::Literal(name) => Ok(build_identifier_record(name.as_str(), start, end)),
            PropertyKey::Binary(name) => Ok(build_identifier_record(name.as_str(), start, end)),
        },
        _ => Err(DescribeError::Unsupported),
    }
}

/// The describable property keys: plain keys always, computed keys when
/// their expression is describable.
pub open spec fn key_describable(a: Seq<Loc<Node>>, i: int) -> bool
    decreases i, 4int,
{
    if 0 <= i < a.len() {
        match a[i].item {
            Node::Key(k) => match k {
                PropertyKey::Computed(e) => e.idx < i && expr_describable(a, e.idx as int),
                PropertyKey::Literal(_) => true,
                PropertyKey::Binary(_) => true,
            },
            _ => false,
        }
    } else {
        false
    }
}

/// The property key in slot `i` is described by `r`: a computed key by
/// its expression's own record, a plain key as an identifier spanning the
/// key's range.
pub open spec fn describes_key(a: Seq<Loc<Node>>, i: int, r: JsonValue) -> bool
    decreases i, 4int,
{
    if 0 <= i < a.len() {
        match a[i].item {
            Node::Key(k) => match k {
                PropertyKey::Computed(e) => e.idx < i && describes_expr(a, e.idx as int, r),
                PropertyKey::Literal(name) => is_identifier_record(
                    r,
                    name@,
                    a[i].start,
                    a[i].end,
                ),
                PropertyKey::Binary(name) => is_identifier_record(r, name@, a[i].start, a[i].end),
            },
            _ => false,
        }
    } else {
        false
    }
}

} // verus!
