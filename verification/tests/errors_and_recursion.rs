use pydantic_core::errors::kinds::ErrorKind;
use pydantic_core::input::input_abstract::Input;
use pydantic_core::errors::line_error::{Context, ContextValue, InputValue, ValLineError};
use pydantic_core::errors::location::LocItem;
use pydantic_core::errors::val_error::ValError;
use pydantic_core::input::host::{HostArena, HostNode, HostRef};
use pydantic_core::input::input_json::{JsonInput, JsonRef};
use pydantic_core::output::OutputValue;
use pydantic_core::schema::Schema;
use pydantic_core::validators::SchemaValidator;

fn set_of_int_schema() -> Schema {
    let mut s = Schema::of_type("set");
    s.items = Some(Box::new(Schema::of_type("int")));
    s
}

fn recursive_set_schema() -> Schema {
    // a set whose elements are again that very set
    let mut leaf = Schema::of_type("recursive-ref");
    leaf.schema_ref = Some(String::from("branch"));
    let mut s = Schema::of_type("set");
    s.items = Some(Box::new(leaf));
    s.name = Some(String::from("branch"));
    s
}

#[test]
fn rejecting_item_validator_reports_every_element() {
    let sv = SchemaValidator::build(&set_of_int_schema(), None).unwrap();
    let input = JsonInput::Array(vec![
        JsonInput::Str(String::from("a")),
        JsonInput::Str(String::from("b")),
        JsonInput::Str(String::from("c")),
    ]);
    match sv.validate(JsonRef { v: &input }, false) {
        Err(ValError::LineErrors(es)) => {
            assert_eq!(es.len(), 3);
            for (i, e) in es.iter().enumerate() {
                assert_eq!(e.kind, ErrorKind::IntParsing);
                assert_eq!(e.location.len(), 1);
                match &e.location[0] {
                    LocItem::Index(idx) => assert_eq!(*idx, i as u64),
                    other => panic!("expected an index location, got {:?}", other),
                }
            }
        },
        other => panic!("expected line errors, got {:?}", other),
    }
}

#[test]
fn nested_failure_location_is_root_to_leaf() {
    let mut outer = Schema::of_type("set");
    outer.items = Some(Box::new(set_of_int_schema()));
    let sv = SchemaValidator::build(&outer, None).unwrap();
    let input = JsonInput::Array(vec![JsonInput::Array(vec![
        JsonInput::Int(1),
        JsonInput::Str(String::from("x")),
    ])]);
    match sv.validate(JsonRef { v: &input }, false) {
        Err(ValError::LineErrors(es)) => {
            assert_eq!(es.len(), 1);
            let loc: Vec<u64> = es[0]
                .location
                .iter()
                .map(|l| match l {
                    LocItem::Index(i) => *i,
                    other => panic!("expected an index, got {:?}", other),
                })
                .collect();
            assert_eq!(loc, vec![0, 1]);
        },
        other => panic!("expected line errors, got {:?}", other),
    }
}

#[test]
fn cyclic_host_value_yields_one_recursion_loop_error() {
    let arena = HostArena { nodes: vec![HostNode::List(vec![0])] };
    let sv = SchemaValidator::build(&recursive_set_schema(), None).unwrap();
    match sv.validate(HostRef { arena: &arena, idx: 0 }, false) {
        Err(ValError::LineErrors(es)) => {
            assert_eq!(es.len(), 1);
            assert_eq!(es[0].kind, ErrorKind::RecursionLoop);
        },
        other => panic!("expected line errors, got {:?}", other),
    }
}

#[test]
fn acyclic_host_value_passes_recursive_schema() {
    // {{}, {}} as nested host sets
    let arena = HostArena {
        nodes: vec![
            HostNode::SetOf(vec![1, 2]),
            HostNode::SetOf(vec![]),
            HostNode::SetOf(vec![]),
        ],
    };
    let sv = SchemaValidator::build(&recursive_set_schema(), None).unwrap();
    let out = sv.validate(HostRef { arena: &arena, idx: 0 }, true).unwrap();
    match out {
        OutputValue::SetOf(els) => {
            // the two empty inner sets are equal and collapse into one
            assert_eq!(els.len(), 1);
        },
        other => panic!("expected a set output, got {:?}", other),
    }
}

#[test]
fn sibling_branches_unaffected_by_guard() {
    // the same inner value twice: the guard must be restored between the
    // two sibling descents
    let arena = HostArena {
        nodes: vec![HostNode::SetOf(vec![1, 1]), HostNode::SetOf(vec![])],
    };
    let sv = SchemaValidator::build(&recursive_set_schema(), None).unwrap();
    let out = sv.validate(HostRef { arena: &arena, idx: 0 }, true).unwrap();
    match out {
        OutputValue::SetOf(els) => assert_eq!(els.len(), 1),
        other => panic!("expected a set output, got {:?}", other),
    }
}

#[test]
fn host_lax_coercions() {
    let sv = SchemaValidator::build(&Schema::of_type("int"), None).unwrap();
    let arena = HostArena {
        nodes: vec![
            HostNode::Str(String::from("42")),
            HostNode::Bytes(vec![b'7', b'1']),
            HostNode::Bytes(vec![0xff, 0xfe]),
        ],
    };
    let out = sv.validate(HostRef { arena: &arena, idx: 0 }, false).unwrap();
    assert!(matches!(out, OutputValue::Int(42)));
    let out = sv.validate(HostRef { arena: &arena, idx: 1 }, false).unwrap();
    assert!(matches!(out, OutputValue::Int(71)));
    match sv.validate(HostRef { arena: &arena, idx: 2 }, false) {
        Err(ValError::LineErrors(es)) => {
            assert_eq!(es[0].kind, ErrorKind::IntParsing);
        },
        other => panic!("expected line errors, got {:?}", other),
    }
}

#[test]
fn host_strict_set_requires_set_node() {
    let arena = HostArena {
        nodes: vec![HostNode::List(vec![1]), HostNode::Int(1), HostNode::Tuple(vec![1])],
    };
    let sv = SchemaValidator::build(&set_of_int_schema(), None).unwrap();
    match sv.validate(HostRef { arena: &arena, idx: 0 }, true) {
        Err(ValError::LineErrors(es)) => assert_eq!(es[0].kind, ErrorKind::SetType),
        other => panic!("expected line errors, got {:?}", other),
    }
    // lax mode accepts list-like sources
    let out = sv.validate(HostRef { arena: &arena, idx: 0 }, false).unwrap();
    assert!(matches!(out, OutputValue::SetOf(_)));
    let out = sv.validate(HostRef { arena: &arena, idx: 2 }, false).unwrap();
    assert!(matches!(out, OutputValue::SetOf(_)));
}

#[test]
fn rendered_message_substitutes_context() {
    let e = ValLineError::new(ErrorKind::IntGreaterThan { gt: 5 }, InputValue::Null);
    assert_eq!(e.render_message(), "Input should be greater than 5");
}

#[test]
fn render_replaces_each_placeholder() {
    let ctx = Context::new(vec![(String::from("gt"), ContextValue::I(5))]);
    let rendered = ctx.render(String::from("Input should be greater than {gt}"));
    assert_eq!(rendered, "Input should be greater than 5");
    // an unmatched placeholder stays verbatim
    let rendered = ctx.render(String::from("{lt} and {gt} and {gt}"));
    assert_eq!(rendered, "{lt} and 5 and 5");
}

#[test]
fn too_short_message_renders_bound_and_label() {
    let mut s = set_of_int_schema();
    s.min_items = Some(2);
    let sv = SchemaValidator::build(&s, None).unwrap();
    let input = JsonInput::Array(vec![JsonInput::Int(1)]);
    match sv.validate(JsonRef { v: &input }, false) {
        Err(ValError::LineErrors(es)) => {
            assert_eq!(es[0].kind, ErrorKind::TooShort);
            assert_eq!(es[0].render_message(), "Set should have at least 2 items");
            assert!(!es[0].context.is_empty());
            assert_eq!(es[0].context.to_text(), "{type: Set, min_length: 2}");
        },
        other => panic!("expected line errors, got {:?}", other),
    }
}

#[test]
fn message_override_wins() {
    let mut e = ValLineError::new(ErrorKind::IntGreaterThan { gt: 5 }, InputValue::Null);
    e.message = Some(String::from("needs more than {gt}!"));
    assert_eq!(e.render_message(), "needs more than 5!");
}

#[test]
fn with_prefix_location_builds_root_to_leaf() {
    let e = ValLineError::new(ErrorKind::IntType, InputValue::Null);
    let e = e.with_prefix_location(LocItem::Index(2));
    let e = e.with_prefix_location(LocItem::Key(String::from("outer")));
    assert_eq!(e.location.len(), 2);
    assert!(matches!(&e.location[0], LocItem::Key(k) if k == "outer"));
    assert!(matches!(&e.location[1], LocItem::Index(2)));
}

#[test]
fn unsupported_schema_type_fails_build() {
    let err = SchemaValidator::build(&Schema::of_type("tuple"), None).unwrap_err();
    assert_eq!(err.message, "unsupported schema type: tuple");
}

#[test]
fn unresolved_reference_fails_build() {
    let mut s = Schema::of_type("recursive-ref");
    s.schema_ref = Some(String::from("nowhere"));
    let err = SchemaValidator::build(&s, None).unwrap_err();
    assert_eq!(err.message, "unresolved schema reference: nowhere");
}

#[test]
fn duplicate_reference_name_fails_build() {
    let mut inner = set_of_int_schema();
    inner.name = Some(String::from("twice"));
    let mut outer = Schema::of_type("set");
    outer.items = Some(Box::new(inner));
    outer.name = Some(String::from("twice"));
    let err = SchemaValidator::build(&outer, None).unwrap_err();
    assert_eq!(err.message, "duplicate recursive reference name: twice");
}

#[test]
fn set_without_items_fails_build() {
    let err = SchemaValidator::build(&Schema::of_type("set"), None).unwrap_err();
    assert_eq!(err.message, "set schema requires an items schema");
}

#[test]
fn zero_multiple_of_fails_build() {
    let mut s = Schema::of_type("int");
    s.multiple_of = Some(0);
    let err = SchemaValidator::build(&s, None).unwrap_err();
    assert_eq!(err.message, "multiple_of bound must be nonzero");
}

#[test]
fn bool_coercions_follow_fixed_string_sets() {
    for text in ["1", "on", "T", "TRUE", "y", "Yes"] {
        let v = JsonInput::Str(String::from(text));
        assert_eq!(JsonRef { v: &v }.lax_bool().unwrap(), true, "{}", text);
    }
    for text in ["0", "OFF", "f", "false", "N", "no"] {
        let v = JsonInput::Str(String::from(text));
        assert_eq!(JsonRef { v: &v }.lax_bool().unwrap(), false, "{}", text);
    }
    let v = JsonInput::Str(String::from("2"));
    let e = JsonRef { v: &v }.lax_bool().unwrap_err();
    assert_eq!(e.kind, ErrorKind::BoolParsing);
    let v = JsonInput::Int(1);
    assert_eq!(JsonRef { v: &v }.lax_bool().unwrap(), true);
    let v = JsonInput::Int(5);
    assert_eq!(JsonRef { v: &v }.lax_bool().unwrap_err().kind, ErrorKind::BoolParsing);
    let v = JsonInput::Bool(false);
    assert_eq!(JsonRef { v: &v }.strict_bool().unwrap(), false);
    let v = JsonInput::Str(String::from("true"));
    assert_eq!(JsonRef { v: &v }.strict_bool().unwrap_err().kind, ErrorKind::BoolType);
}

#[test]
fn lax_str_renders_numbers() {
    let v = JsonInput::Int(-42);
    assert_eq!(JsonRef { v: &v }.lax_str().unwrap(), "-42");
    let v = JsonInput::Float(pydantic_core::input::input_json::FloatRepr {
        text: String::from("2.5"),
        whole: None,
    });
    assert_eq!(JsonRef { v: &v }.lax_str().unwrap(), "2.5");
    let v = JsonInput::Bool(true);
    assert_eq!(JsonRef { v: &v }.lax_str().unwrap_err().kind, ErrorKind::StrType);
}

#[test]
fn deeply_nested_recursion_is_bounded() {
    // each nesting level passes through the recursion slot; past the
    // engine's depth bound the descent stops with a RecursionLoop error
    // instead of recursing without limit
    let mut value = JsonInput::Array(Vec::new());
    for _ in 0..300 {
        value = JsonInput::Array(vec![value]);
    }
    let sv = SchemaValidator::build(&recursive_set_schema(), None).unwrap();
    match sv.validate(JsonRef { v: &value }, false) {
        Err(ValError::LineErrors(es)) => {
            assert_eq!(es.len(), 1);
            assert_eq!(es[0].kind, ErrorKind::RecursionLoop);
        },
        other => panic!("expected line errors, got {:?}", other),
    }
}

#[test]
fn shallow_nesting_passes_recursive_schema() {
    let mut value = JsonInput::Array(Vec::new());
    for _ in 0..20 {
        value = JsonInput::Array(vec![value]);
    }
    let sv = SchemaValidator::build(&recursive_set_schema(), None).unwrap();
    assert!(sv.validate(JsonRef { v: &value }, false).is_ok());
}

#[test]
fn host_string_coercions() {
    let arena = HostArena {
        nodes: vec![
            HostNode::Bytes(vec![b'h', b'i']),
            HostNode::Bytes(vec![0xc3, 0x28]),
            HostNode::Int(-3),
            HostNode::Str(String::from("plain")),
        ],
    };
    let at = |i: usize| HostRef { arena: &arena, idx: i };
    assert_eq!(at(0).lax_str().unwrap(), "hi");
    assert_eq!(at(1).lax_str().unwrap_err().kind, ErrorKind::StrUnicode);
    assert_eq!(at(2).lax_str().unwrap(), "-3");
    assert_eq!(at(0).strict_str().unwrap_err().kind, ErrorKind::StrType);
    assert_eq!(at(3).strict_str().unwrap(), "plain");
}

#[test]
fn host_float_coercions() {
    let arena = HostArena {
        nodes: vec![
            HostNode::Float(pydantic_core::input::input_json::FloatRepr {
                text: String::from("8.0"),
                whole: Some(8),
            }),
            HostNode::Float(pydantic_core::input::input_json::FloatRepr {
                text: String::from("8.5"),
                whole: None,
            }),
        ],
    };
    let at = |i: usize| HostRef { arena: &arena, idx: i };
    assert_eq!(at(0).lax_int().unwrap(), 8);
    assert_eq!(at(1).lax_int().unwrap_err().kind, ErrorKind::IntFromFloat);
    assert_eq!(at(1).lax_str().unwrap(), "8.5");
}

#[test]
fn output_value_equality_is_structural() {
    let a = OutputValue::SetOf(vec![OutputValue::Int(1), OutputValue::Null]);
    let b = OutputValue::SetOf(vec![OutputValue::Int(1), OutputValue::Null]);
    let c = OutputValue::SetOf(vec![OutputValue::Int(1)]);
    let d = OutputValue::SetOf(vec![OutputValue::Int(2), OutputValue::Null]);
    assert!(a.value_eq(&b));
    assert!(!a.value_eq(&c));
    assert!(!a.value_eq(&d));
    assert!(!a.value_eq(&OutputValue::Null));
}

#[test]
fn message_templates_are_fixed_per_kind() {
    assert_eq!(ErrorKind::IntType.message_template(), "Input should be a valid integer");
    assert_eq!(
        ErrorKind::IntGreaterThan { gt: 5 }.message_template(),
        "Input should be greater than {gt}"
    );
    assert_eq!(ErrorKind::NoneRequired.message_template(), "Input should be None");
}
