use ratel_ast::ast::{Arena, Expression, Literal, Loc, Module, Statement, TemplateExpression};
use ratel_ast::estree::describe_module;
use ratel_ast::json::JsonValue;

fn fld(name: &str, v: JsonValue) -> (String, JsonValue) {
    (name.to_string(), v)
}

fn s(text: &str) -> JsonValue {
    JsonValue::Str(text.to_string())
}

fn n(v: u64) -> JsonValue {
    JsonValue::Num(v)
}

fn obj(fields: Vec<(String, JsonValue)>) -> JsonValue {
    JsonValue::Obj(fields)
}

fn arr(items: Vec<JsonValue>) -> JsonValue {
    JsonValue::Arr(items)
}

fn program(body: Vec<JsonValue>) -> JsonValue {
    obj(vec![
        fld("type", s("Program")),
        fld("body", arr(body)),
        fld("start", n(0)),
        fld("end", n(0)),
    ])
}

fn expression_statement(expression: JsonValue, start: u64, end: u64) -> JsonValue {
    obj(vec![
        fld("type", s("ExpressionStatement")),
        fld("expression", expression),
        fld("start", n(start)),
        fld("end", n(end)),
    ])
}

/// One-statement module holding a single literal expression.
fn literal_module(lit: Literal, start: u32, end: u32) -> (Arena, Module) {
    let mut arena = Arena::new();
    let expr = arena.alloc_expr(start, end, Expression::Literal(lit));
    let stmt = arena.alloc_stmt(start, end, Statement::Expression(expr));
    (arena, Module { body: vec![stmt] })
}

fn template_element(raw: &str, tail: bool, start: u64, end: u64) -> JsonValue {
    obj(vec![
        fld("type", s("TemplateElement")),
        fld("tail", JsonValue::Bool(tail)),
        fld(
            "value",
            obj(vec![fld("raw", s(raw)), fld("cooked", s(raw))]),
        ),
        fld("start", n(start)),
        fld("end", n(end)),
    ])
}

#[test]
fn test_value_undefined() {
    let (arena, module) = literal_module(Literal::Undefined, 0, 9);
    let expected = program(vec![expression_statement(
        obj(vec![
            fld("type", s("Literal")),
            fld("value", s("undefined")),
            fld("start", n(0)),
            fld("end", n(9)),
        ]),
        0,
        9,
    )]);
    assert_eq!(describe_module(&arena, &module), Ok(expected));
}

#[test]
fn test_value_null() {
    let (arena, module) = literal_module(Literal::Null, 0, 4);
    let expected = program(vec![expression_statement(
        obj(vec![
            fld("type", s("Literal")),
            fld("value", s("null")),
            fld("start", n(0)),
            fld("end", n(4)),
        ]),
        0,
        4,
    )]);
    assert_eq!(describe_module(&arena, &module), Ok(expected));
}

#[test]
fn test_value_true() {
    let (arena, module) = literal_module(Literal::True, 0, 4);
    let expected = program(vec![expression_statement(
        obj(vec![
            fld("type", s("Literal")),
            fld("value", JsonValue::Bool(true)),
            fld("start", n(0)),
            fld("end", n(4)),
        ]),
        0,
        4,
    )]);
    assert_eq!(describe_module(&arena, &module), Ok(expected));
}

#[test]
fn test_value_false() {
    let (arena, module) = literal_module(Literal::False, 0, 5);
    let expected = program(vec![expression_statement(
        obj(vec![
            fld("type", s("Literal")),
            fld("value", JsonValue::Bool(false)),
            fld("start", n(0)),
            fld("end", n(5)),
        ]),
        0,
        5,
    )]);
    assert_eq!(describe_module(&arena, &module), Ok(expected));
}

#[test]
fn test_value_number() {
    let (arena, module) = literal_module(Literal::Number("0".to_string()), 0, 1);
    let expected = program(vec![expression_statement(
        obj(vec![
            fld("type", s("Literal")),
            fld("value", s("0")),
            fld("start", n(0)),
            fld("end", n(1)),
        ]),
        0,
        1,
    )]);
    assert_eq!(describe_module(&arena, &module), Ok(expected));

    let (arena, module) = literal_module(Literal::Binary("0x0".to_string()), 0, 3);
    let expected = program(vec![expression_statement(
        obj(vec![
            fld("type", s("Literal")),
            fld("value", s("0x0")),
            fld("start", n(0)),
            fld("end", n(3)),
        ]),
        0,
        3,
    )]);
    assert_eq!(describe_module(&arena, &module), Ok(expected));

    let (arena, module) = literal_module(Literal::Binary("0b0".to_string()), 0, 3);
    let expected = program(vec![expression_statement(
        obj(vec![
            fld("type", s("Literal")),
            fld("value", s("0b0")),
            fld("start", n(0)),
            fld("end", n(3)),
        ]),
        0,
        3,
    )]);
    assert_eq!(describe_module(&arena, &module), Ok(expected));
}

#[test]
fn test_value_string() {
    let (arena, module) = literal_module(Literal::String("'foo'".to_string()), 0, 5);
    let expected = program(vec![expression_statement(
        obj(vec![
            fld("type", s("StringLiteral")),
            fld("value", s("'foo'")),
            fld("start", n(0)),
            fld("end", n(5)),
        ]),
        0,
        5,
    )]);
    assert_eq!(describe_module(&arena, &module), Ok(expected));
}

#[test]
fn test_regex() {
    let (arena, module) = literal_module(Literal::RegEx(r"/^\b\w+/m".to_string()), 0, 0);
    let expected = program(vec![expression_statement(
        obj(vec![
            fld("type", s("Literal")),
            fld(
                "regex",
                obj(vec![fld("pattern", s(r"^\b\w+")), fld("flags", s("m"))]),
            ),
            fld("start", n(0)),
            fld("end", n(0)),
        ]),
        0,
        0,
    )]);
    assert_eq!(describe_module(&arena, &module), Ok(expected));
}

#[test]
fn test_template() {
    // `` — a template literal token without substitutions.
    let (arena, module) = literal_module(Literal::Template(String::new()), 0, 2);
    let expected = program(vec![expression_statement(
        obj(vec![
            fld("type", s("TemplateLiteral")),
            fld("quasis", arr(vec![template_element("", true, 0, 0)])),
            fld("expressions", arr(vec![])),
            fld("start", n(0)),
            fld("end", n(2)),
        ]),
        0,
        2,
    )]);
    assert_eq!(describe_module(&arena, &module), Ok(expected));

    // foo`` — a tagged template.
    let mut arena = Arena::new();
    let tag = arena.alloc_expr(3, 5, Expression::Identifier("foo".to_string()));
    let template = arena.alloc_expr(
        3,
        5,
        Expression::Template(TemplateExpression {
            tag: Some(tag),
            expressions: vec![],
            quasis: vec![Loc { start: 3, end: 5, item: String::new() }],
        }),
    );
    let stmt = arena.alloc_stmt(0, 5, Statement::Expression(template));
    let module = Module { body: vec![stmt] };
    let expected = program(vec![expression_statement(
        obj(vec![
            fld("type", s("TaggedTemplateExpression")),
            fld(
                "tag",
                obj(vec![
                    fld("type", s("Identifier")),
                    fld("name", s("foo")),
                    fld("start", n(3)),
                    fld("end", n(5)),
                ]),
            ),
            fld(
                "quasi",
                obj(vec![
                    fld("type", s("TemplateLiteral")),
                    fld("quasis", arr(vec![template_element("", true, 3, 5)])),
                    fld("expressions", arr(vec![])),
                    fld("start", n(0)),
                    fld("end", n(0)),
                ]),
            ),
            fld("start", n(3)),
            fld("end", n(5)),
        ]),
        0,
        5,
    )]);
    assert_eq!(describe_module(&arena, &module), Ok(expected));

    // `` again, through the same literal path.
    let (arena, module) = literal_module(Literal::Template(String::new()), 0, 2);
    let expected = program(vec![expression_statement(
        obj(vec![
            fld("type", s("TemplateLiteral")),
            fld("quasis", arr(vec![template_element("", true, 0, 0)])),
            fld("expressions", arr(vec![])),
            fld("start", n(0)),
            fld("end", n(2)),
        ]),
        0,
        2,
    )]);
    assert_eq!(describe_module(&arena, &module), Ok(expected));

    // `foo${bar}baz` — segments interleaved with one substitution.
    let mut arena = Arena::new();
    let bar = arena.alloc_expr(6, 9, Expression::Identifier("bar".to_string()));
    let template = arena.alloc_expr(
        0,
        14,
        Expression::Template(TemplateExpression {
            tag: None,
            expressions: vec![bar],
            quasis: vec![
                Loc { start: 0, end: 6, item: "foo".to_string() },
                Loc { start: 9, end: 14, item: "baz".to_string() },
            ],
        }),
    );
    let stmt = arena.alloc_stmt(0, 14, Statement::Expression(template));
    let module = Module { body: vec![stmt] };
    let expected = program(vec![expression_statement(
        obj(vec![
            fld("type", s("TemplateLiteral")),
            fld(
                "quasis",
                arr(vec![
                    template_element("foo", false, 0, 6),
                    template_element("baz", true, 9, 14),
                ]),
            ),
            fld(
                "expressions",
                arr(vec![obj(vec![
                    fld("type", s("Identifier")),
                    fld("name", s("bar")),
                    fld("start", n(6)),
                    fld("end", n(9)),
                ])]),
            ),
            fld("start", n(0)),
            fld("end", n(14)),
        ]),
        0,
        14,
    )]);
    assert_eq!(describe_module(&arena, &module), Ok(expected));
}
