use pydantic_core::errors::kinds::ErrorKind;
use pydantic_core::errors::val_error::ValError;
use pydantic_core::input::input_json::{FloatRepr, JsonInput, JsonRef};
use pydantic_core::output::OutputValue;
use pydantic_core::schema::{Config, Schema};
use pydantic_core::validators::SchemaValidator;

fn build(schema: &Schema) -> SchemaValidator {
    SchemaValidator::build(schema, None).expect("schema should build")
}

fn validate(
    sv: &SchemaValidator,
    input: &JsonInput,
    strict: bool,
) -> Result<OutputValue, ValError> {
    sv.validate(JsonRef { v: input }, strict)
}

fn as_int(out: &OutputValue) -> i64 {
    match out {
        OutputValue::Int(i) => *i,
        other => panic!("expected an int output, got {:?}", other),
    }
}

fn as_set(out: &OutputValue) -> &Vec<OutputValue> {
    match out {
        OutputValue::SetOf(els) => els,
        other => panic!("expected a set output, got {:?}", other),
    }
}

fn sole_error_kind(r: Result<OutputValue, ValError>) -> ErrorKind {
    match r {
        Err(ValError::LineErrors(es)) => {
            assert_eq!(es.len(), 1);
            es[0].kind
        },
        other => panic!("expected one line error, got {:?}", other),
    }
}

fn int_schema() -> Schema {
    Schema::of_type("int")
}

fn set_of_int_schema() -> Schema {
    let mut s = Schema::of_type("set");
    s.items = Some(Box::new(int_schema()));
    s
}

#[test]
fn string_as_int_strict_fails_lax_succeeds() {
    let sv = build(&int_schema());
    let input = JsonInput::Str(String::from("123"));
    assert_eq!(sole_error_kind(validate(&sv, &input, true)), ErrorKind::IntType);
    let out = validate(&sv, &input, false).expect("lax should coerce");
    assert_eq!(as_int(&out), 123);
}

#[test]
fn int_passes_both_modes() {
    let sv = build(&int_schema());
    let input = JsonInput::Int(-7);
    assert_eq!(as_int(&validate(&sv, &input, true).unwrap()), -7);
    assert_eq!(as_int(&validate(&sv, &input, false).unwrap()), -7);
}

#[test]
fn bool_as_int_lax_only() {
    let sv = build(&int_schema());
    let input = JsonInput::Bool(true);
    assert_eq!(as_int(&validate(&sv, &input, false).unwrap()), 1);
    assert_eq!(sole_error_kind(validate(&sv, &input, true)), ErrorKind::IntType);
}

#[test]
fn whole_float_as_int_lax() {
    let sv = build(&int_schema());
    let input = JsonInput::Float(FloatRepr { text: String::from("4.0"), whole: Some(4) });
    assert_eq!(as_int(&validate(&sv, &input, false).unwrap()), 4);
}

#[test]
fn fractional_float_as_int_fails() {
    let sv = build(&int_schema());
    let input = JsonInput::Float(FloatRepr { text: String::from("4.5"), whole: None });
    assert_eq!(sole_error_kind(validate(&sv, &input, false)), ErrorKind::IntFromFloat);
}

#[test]
fn unparsable_string_as_int_fails() {
    let sv = build(&int_schema());
    for text in ["wrong", "12.3", " 12", "12 ", "", "+", "-"] {
        let input = JsonInput::Str(String::from(text));
        assert_eq!(sole_error_kind(validate(&sv, &input, false)), ErrorKind::IntParsing);
    }
}

#[test]
fn int_parse_edges() {
    let sv = build(&int_schema());
    let cases = [
        ("9223372036854775807", 9223372036854775807i64),
        ("-9223372036854775808", -9223372036854775808i64),
        ("+55", 55),
        ("007", 7),
    ];
    for (text, expected) in cases {
        let input = JsonInput::Str(String::from(text));
        assert_eq!(as_int(&validate(&sv, &input, false).unwrap()), expected);
    }
    let too_big = JsonInput::Str(String::from("9223372036854775808"));
    assert_eq!(sole_error_kind(validate(&sv, &too_big, false)), ErrorKind::IntParsing);
    let too_small = JsonInput::Str(String::from("-9223372036854775809"));
    assert_eq!(sole_error_kind(validate(&sv, &too_small, false)), ErrorKind::IntParsing);
}

#[test]
fn none_validator_accepts_only_null() {
    let sv = build(&Schema::of_type("none"));
    match validate(&sv, &JsonInput::Null, true).unwrap() {
        OutputValue::Null => {},
        other => panic!("expected null output, got {:?}", other),
    }
    assert_eq!(
        sole_error_kind(validate(&sv, &JsonInput::Int(0), false)),
        ErrorKind::NoneRequired
    );
}

#[test]
fn constrained_int_le_bound_holds() {
    let mut s = int_schema();
    s.le = Some(10);
    let sv = build(&s);
    assert_eq!(as_int(&validate(&sv, &JsonInput::Int(10), true).unwrap()), 10);
    assert_eq!(
        sole_error_kind(validate(&sv, &JsonInput::Int(11), true)),
        ErrorKind::IntLessThanEqual { le: 10 }
    );
}

#[test]
fn constrained_int_other_bounds() {
    let mut s = int_schema();
    s.lt = Some(5);
    let sv = build(&s);
    assert_eq!(
        sole_error_kind(validate(&sv, &JsonInput::Int(5), true)),
        ErrorKind::IntLessThan { lt: 5 }
    );
    let mut s = int_schema();
    s.ge = Some(0);
    let sv = build(&s);
    assert_eq!(
        sole_error_kind(validate(&sv, &JsonInput::Int(-1), true)),
        ErrorKind::IntGreaterThanEqual { ge: 0 }
    );
    let mut s = int_schema();
    s.gt = Some(3);
    let sv = build(&s);
    assert_eq!(
        sole_error_kind(validate(&sv, &JsonInput::Int(3), true)),
        ErrorKind::IntGreaterThan { gt: 3 }
    );
    assert_eq!(as_int(&validate(&sv, &JsonInput::Int(4), true).unwrap()), 4);
}

#[test]
fn constrained_int_multiple_of() {
    let mut s = int_schema();
    s.multiple_of = Some(3);
    let sv = build(&s);
    assert_eq!(as_int(&validate(&sv, &JsonInput::Int(-9), true).unwrap()), -9);
    assert_eq!(
        sole_error_kind(validate(&sv, &JsonInput::Int(10), true)),
        ErrorKind::IntMultipleOf { multiple_of: 3 }
    );
}

#[test]
fn constraints_checked_in_order() {
    let mut s = int_schema();
    s.multiple_of = Some(2);
    s.le = Some(4);
    let sv = build(&s);
    // 7 violates both; the multiple-of check comes first
    assert_eq!(
        sole_error_kind(validate(&sv, &JsonInput::Int(7), true)),
        ErrorKind::IntMultipleOf { multiple_of: 2 }
    );
}

#[test]
fn set_duplicates_collapse() {
    let sv = build(&set_of_int_schema());
    let input = JsonInput::Array(vec![JsonInput::Int(1), JsonInput::Int(1), JsonInput::Int(2)]);
    let out = validate(&sv, &input, false).unwrap();
    let els = as_set(&out);
    assert_eq!(els.len(), 2);
    assert_eq!(as_int(&els[0]), 1);
    assert_eq!(as_int(&els[1]), 2);
}

#[test]
fn empty_set_is_fine() {
    let sv = build(&set_of_int_schema());
    let out = validate(&sv, &JsonInput::Array(Vec::new()), true).unwrap();
    assert_eq!(as_set(&out).len(), 0);
}

#[test]
fn set_accepts_array_even_strict() {
    // a document has no distinct set representation, so an array is the
    // strict set source too
    let sv = build(&set_of_int_schema());
    let input = JsonInput::Array(vec![JsonInput::Int(9)]);
    let out = validate(&sv, &input, true).unwrap();
    assert_eq!(as_set(&out).len(), 1);
}

#[test]
fn set_rejects_non_array() {
    let sv = build(&set_of_int_schema());
    assert_eq!(sole_error_kind(validate(&sv, &JsonInput::Int(1), false)), ErrorKind::SetType);
}

#[test]
fn set_min_max_items() {
    let mut s = set_of_int_schema();
    s.min_items = Some(2);
    s.max_items = Some(3);
    let sv = build(&s);
    let one = JsonInput::Array(vec![JsonInput::Int(1)]);
    assert_eq!(sole_error_kind(validate(&sv, &one, false)), ErrorKind::TooShort);
    let four = JsonInput::Array(
        vec![JsonInput::Int(1), JsonInput::Int(2), JsonInput::Int(3), JsonInput::Int(4)],
    );
    assert_eq!(sole_error_kind(validate(&sv, &four, false)), ErrorKind::TooLong);
    let two = JsonInput::Array(vec![JsonInput::Int(1), JsonInput::Int(2)]);
    assert_eq!(as_set(&validate(&sv, &two, false).unwrap()).len(), 2);
}

#[test]
fn revalidating_canonical_output_is_identity() {
    let sv = build(&set_of_int_schema());
    let input = JsonInput::Array(
        vec![JsonInput::Str(String::from("5")), JsonInput::Int(5), JsonInput::Int(6)],
    );
    let out = validate(&sv, &input, false).unwrap();
    let reinput = out.as_json_input();
    let out2 = validate(&sv, &reinput, false).unwrap();
    assert!(out.value_eq(&out2));
}

#[test]
fn build_is_deterministic() {
    let mut s = set_of_int_schema();
    s.min_items = Some(1);
    let sv1 = build(&s);
    let sv2 = build(&s);
    let input = JsonInput::Array(vec![JsonInput::Int(3), JsonInput::Int(3)]);
    let out1 = validate(&sv1, &input, false).unwrap();
    let out2 = validate(&sv2, &input, false).unwrap();
    assert!(out1.value_eq(&out2));
}

#[test]
fn strict_config_applies_when_schema_silent() {
    let config = Config { strict: Some(true) };
    let sv = SchemaValidator::build(&int_schema(), Some(&config)).unwrap();
    let input = JsonInput::Str(String::from("5"));
    assert_eq!(sole_error_kind(sv.validate(JsonRef { v: &input }, false)), ErrorKind::IntType);
    let mut lax_schema = int_schema();
    lax_schema.strict = Some(false);
    let sv = SchemaValidator::build(&lax_schema, Some(&config)).unwrap();
    assert_eq!(as_int(&sv.validate(JsonRef { v: &input }, false).unwrap()), 5);
}

#[test]
fn validator_names() {
    let sv = build(&set_of_int_schema());
    assert_eq!(sv.validator.get_name(), "set[int]");
    let sv = build(&int_schema());
    assert_eq!(sv.validator.get_name(), "int");
    let mut s = int_schema();
    s.gt = Some(0);
    let sv = build(&s);
    assert_eq!(sv.validator.get_name(), "constrained-int");
}
