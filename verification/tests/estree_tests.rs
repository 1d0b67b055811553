use ratel_ast::ast::{
    Arena, Expression, Literal, Loc, Pattern, PropertyKey, Property, MethodFunction,
    TemplateExpression,
};
use ratel_ast::estree::{
    describe_expression, describe_literal, describe_pattern, describe_property,
    describe_property_key, parse_regex, template_element_value, template_literal_parts,
    DescribeError, RegExLiteral, TemplateElement,
};
use ratel_ast::json::JsonValue;

fn fld(name: &str, v: JsonValue) -> (String, JsonValue) {
    (name.to_string(), v)
}

fn s(text: &str) -> JsonValue {
    JsonValue::Str(text.to_string())
}

fn n(v: u64) -> JsonValue {
    JsonValue::Num(v)
}

fn identifier(name: &str, start: u64, end: u64) -> JsonValue {
    JsonValue::Obj(vec![
        fld("type", s("Identifier")),
        fld("name", s(name)),
        fld("start", n(start)),
        fld("end", n(end)),
    ])
}

#[test]
fn test_parse_regex() {
    assert_eq!(
        parse_regex("/foo/"),
        Ok(RegExLiteral { pattern: "foo".to_string(), flags: String::new() })
    );
    assert_eq!(
        parse_regex("/bar/mg"),
        Ok(RegExLiteral { pattern: "bar".to_string(), flags: "mg".to_string() })
    );
}

#[test]
fn parse_regex_rejects_missing_delimiter() {
    assert_eq!(parse_regex(""), Err(DescribeError::MalformedRegEx));
    assert_eq!(parse_regex("/"), Err(DescribeError::MalformedRegEx));
    assert_eq!(parse_regex("ab"), Err(DescribeError::MalformedRegEx));
}

#[test]
fn malformed_regex_literal_reports_typed_error() {
    assert_eq!(
        describe_literal(&Literal::RegEx("no delimiter".to_string()), 0, 12),
        Err(DescribeError::MalformedRegEx)
    );
}

#[test]
fn unsupported_expression_reports_typed_error() {
    let mut arena = Arena::new();
    let this = arena.alloc_expr(0, 4, Expression::This(ratel_ast::ast::ThisExpression));
    assert_eq!(describe_expression(&arena, this), Err(DescribeError::Unsupported));
}

#[test]
fn template_parts_flag_only_the_last_segment_as_tail() {
    let t = TemplateExpression {
        tag: None,
        expressions: vec![],
        quasis: vec![
            Loc { start: 0, end: 2, item: "a".to_string() },
            Loc { start: 4, end: 6, item: "b".to_string() },
            Loc { start: 8, end: 10, item: "c".to_string() },
        ],
    };
    let parts = template_literal_parts(&t);
    assert_eq!(parts.quasis.len(), 3);
    assert_eq!(parts.quasis.len(), t.expressions.len() + 3);
    let tails: Vec<bool> = parts.quasis.iter().map(|q| q.item.tail).collect();
    assert_eq!(tails, vec![false, false, true]);
    assert_eq!(parts.quasis[0].item.value, "a");
    assert_eq!(parts.quasis[2].start, 8);
    assert_eq!(parts.expressions, t.expressions);

    let value = template_element_value(&TemplateElement { tail: true, value: "xy".to_string() });
    assert_eq!(value.raw, "xy");
    assert_eq!(value.cooked, "xy");
}

#[test]
fn patterns_describe_as_located_records() {
    let mut arena = Arena::new();
    let a = arena.alloc_pattern(1, 2, Pattern::Identifier("a".to_string()));
    let fallback = arena.alloc_expr(6, 7, Expression::Literal(Literal::Number("1".to_string())));
    let b = arena.alloc_pattern(4, 5, Pattern::Identifier("b".to_string()));
    let with_default = arena.alloc_pattern(
        4,
        7,
        Pattern::AssignmentPattern { left: b, right: fallback },
    );
    let array = arena.alloc_pattern(0, 8, Pattern::ArrayPattern { elements: vec![a, with_default] });

    let expected = JsonValue::Obj(vec![
        fld("type", s("ArrayPattern")),
        fld(
            "elements",
            JsonValue::Arr(vec![
                identifier("a", 1, 2),
                JsonValue::Obj(vec![
                    fld("type", s("AssignmentPattern")),
                    fld("left", identifier("b", 4, 5)),
                    fld(
                        "right",
                        JsonValue::Obj(vec![
                            fld("type", s("Literal")),
                            fld("value", s("1")),
                            fld("start", n(6)),
                            fld("end", n(7)),
                        ]),
                    ),
                    fld("start", n(4)),
                    fld("end", n(7)),
                ]),
            ]),
        ),
        fld("start", n(0)),
        fld("end", n(8)),
    ]);
    assert_eq!(describe_pattern(&arena, array), Ok(expected));

    let rest = arena.alloc_pattern(0, 0, Pattern::Void);
    assert_eq!(describe_pattern(&arena, rest), Err(DescribeError::Unsupported));
}

#[test]
fn property_keys_describe_as_identifiers_or_their_expression() {
    let mut arena = Arena::new();
    let plain = arena.alloc_key(2, 5, PropertyKey::Literal("key".to_string()));
    assert_eq!(describe_property_key(&arena, plain), Ok(identifier("key", 2, 5)));

    let numeric = arena.alloc_key(2, 3, PropertyKey::Binary("0".to_string()));
    assert_eq!(describe_property_key(&arena, numeric), Ok(identifier("0", 2, 3)));

    let inner = arena.alloc_expr(3, 4, Expression::Identifier("k".to_string()));
    let computed = arena.alloc_key(2, 5, PropertyKey::Computed(inner));
    assert_eq!(describe_property_key(&arena, computed), Ok(identifier("k", 3, 4)));
}

#[test]
fn properties_have_no_serialized_form() {
    let mut arena = Arena::new();
    let prop = arena.alloc_property(0, 2, Property::Shorthand("x".to_string()));
    assert_eq!(describe_property(&arena, prop), Err(DescribeError::Unsupported));

    let key = arena.alloc_key(0, 1, PropertyKey::Literal("m".to_string()));
    let method = arena.alloc_property(
        0,
        5,
        Property::Method { key, value: MethodFunction { params: vec![], body: vec![] } },
    );
    assert_eq!(describe_property(&arena, method), Err(DescribeError::Unsupported));
}
