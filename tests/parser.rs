use luxctl::parser::{parse_typed_param, parse_validator, ParamValue};

#[test]
fn test_parse_bool_true() {
    let result = parse_typed_param("bool(true)").unwrap();
    assert_eq!(result, ParamValue::Bool(true));
}

#[test]
fn test_parse_bool_false() {
    let result = parse_typed_param("bool(false)").unwrap();
    assert_eq!(result, ParamValue::Bool(false));
}

#[test]
fn test_parse_int() {
    let result = parse_typed_param("int(4221)").unwrap();
    assert_eq!(result, ParamValue::Int(4221));
}

#[test]
fn test_parse_negative_int() {
    let result = parse_typed_param("int(-42)").unwrap();
    assert_eq!(result, ParamValue::Int(-42));
}

#[test]
fn test_parse_string() {
    let result = parse_typed_param("string(/echo/hello)").unwrap();
    assert_eq!(result, ParamValue::String("/echo/hello".to_string()));
}

#[test]
fn test_parse_string_with_spaces() {
    let result = parse_typed_param("string(hello world)").unwrap();
    assert_eq!(result, ParamValue::String("hello world".to_string()));
}

#[test]
fn test_parse_validator_no_params() {
    let result = parse_validator("can_compile").unwrap();
    assert_eq!(result.name, "can_compile");
    assert!(result.params.is_empty());
}

#[test]
fn test_parse_validator_single_param() {
    let result = parse_validator("tcp_listening:int(4221)").unwrap();
    assert_eq!(result.name, "tcp_listening");
    assert_eq!(result.params.len(), 1);
    assert_eq!(result.params[0], ParamValue::Int(4221));
}

#[test]
fn test_parse_validator_multiple_params() {
    let result = parse_validator("http_get:string(/),int(200)").unwrap();
    assert_eq!(result.name, "http_get");
    assert_eq!(result.params.len(), 2);
    assert_eq!(result.params[0], ParamValue::String("/".to_string()));
    assert_eq!(result.params[1], ParamValue::Int(200));
}

#[test]
fn test_parse_validator_three_params() {
    let result = parse_validator("http_get:string(/echo/hello),int(200),string(hello)").unwrap();
    assert_eq!(result.name, "http_get");
    assert_eq!(result.params.len(), 3);
    assert_eq!(result.params[0], ParamValue::String("/echo/hello".to_string()));
    assert_eq!(result.params[1], ParamValue::Int(200));
    assert_eq!(result.params[2], ParamValue::String("hello".to_string()));
}

#[test]
fn test_parse_validator_bool_param() {
    let result = parse_validator("can_compile:bool(true)").unwrap();
    assert_eq!(result.name, "can_compile");
    assert_eq!(result.params.len(), 1);
    assert_eq!(result.params[0], ParamValue::Bool(true));
}

#[test]
fn test_parse_validator_mixed_params() {
    let result = parse_validator("http_header_present:string(Content-Type),bool(true)").unwrap();
    assert_eq!(result.name, "http_header_present");
    assert_eq!(result.params.len(), 2);
    assert_eq!(result.params[0], ParamValue::String("Content-Type".to_string()));
    assert_eq!(result.params[1], ParamValue::Bool(true));
}

#[test]
fn test_parse_validator_with_spaces() {
    let result = parse_validator("  http_get : string(/path) , int(200)  ").unwrap();
    assert_eq!(result.name, "http_get");
    assert_eq!(result.params.len(), 2);
}

#[test]
fn test_invalid_param_format() {
    let result = parse_typed_param("invalid");
    assert!(result.is_err());
}

#[test]
fn test_invalid_bool_value() {
    let result = parse_typed_param("bool(maybe)");
    assert!(result.is_err());
}

#[test]
fn test_invalid_int_value() {
    let result = parse_typed_param("int(abc)");
    assert!(result.is_err());
}

#[test]
fn test_empty_validator_name() {
    let result = parse_validator(":int(123)");
    assert!(result.is_err());
}

#[test]
fn test_param_accessors() {
    let parsed = parse_validator("test:int(42),string(hello),bool(true)").unwrap();

    assert_eq!(parsed.param_as_int(0).unwrap(), 42);
    assert_eq!(parsed.param_as_string(1).unwrap(), "hello");
    assert!(parsed.param_as_bool(2).unwrap());

    assert!(parsed.param_as_int(1).is_err());
    assert!(parsed.param_as_string(0).is_err());
    assert!(parsed.param_as_int(10).is_err());
}

// ---- properties and edge cases

#[test]
fn bool_is_case_insensitive() {
    assert_eq!(parse_typed_param("bool(TRUE)").unwrap(), ParamValue::Bool(true));
    assert_eq!(parse_typed_param("bool(true)").unwrap(), ParamValue::Bool(true));
    assert_eq!(parse_typed_param("bool(False)").unwrap(), ParamValue::Bool(false));
}

#[test]
fn negative_seven_parses() {
    assert_eq!(parse_typed_param("int(-7)").unwrap(), ParamValue::Int(-7));
}

#[test]
fn string_body_keeps_commas_and_parens() {
    let parsed = parse_validator("x:string(a, b (c)),int(1)").unwrap();
    assert_eq!(parsed.params.len(), 2);
    assert_eq!(parsed.params[0], ParamValue::String("a, b (c)".to_string()));
    assert_eq!(parsed.params[1], ParamValue::Int(1));
}

#[test]
fn params_keep_source_order_and_types() {
    let parsed = parse_validator("k:bool(false),int(-3),string(z),int(9)").unwrap();
    assert_eq!(
        parsed.params,
        vec![
            ParamValue::Bool(false),
            ParamValue::Int(-3),
            ParamValue::String("z".to_string()),
            ParamValue::Int(9),
        ]
    );
}

#[test]
fn int_range_edges() {
    assert_eq!(parse_typed_param("int(9223372036854775807)").unwrap(), ParamValue::Int(i64::MAX));
    assert_eq!(parse_typed_param("int(-9223372036854775808)").unwrap(), ParamValue::Int(i64::MIN));
    assert!(parse_typed_param("int(9223372036854775808)").is_err());
    assert_eq!(parse_typed_param("int(+5)").unwrap(), ParamValue::Int(5));
    assert!(parse_typed_param("int()").is_err());
    assert!(parse_typed_param("int(-)").is_err());
}

#[test]
fn error_messages_name_the_token() {
    assert_eq!(parse_typed_param("bool(maybe)").unwrap_err(), "invalid boolean value: maybe");
    assert_eq!(parse_typed_param("int(abc)").unwrap_err(), "invalid integer value: abc");
    assert_eq!(
        parse_typed_param(" nope ").unwrap_err(),
        "invalid parameter format: nope. expected bool(...), int(...), or string(...)"
    );
    assert_eq!(parse_validator("  :x").unwrap_err(), "validator name cannot be empty");
}

#[test]
fn accessor_messages_tell_missing_from_mistyped() {
    let parsed = parse_validator("t:string(a)").unwrap();
    assert_eq!(parsed.param_as_int(3).unwrap_err(), "missing parameter at index 3");
    assert_eq!(parsed.param_as_int(0).unwrap_err(), "parameter 0 is not an integer");
    assert_eq!(parsed.param_as_bool(0).unwrap_err(), "parameter 0 is not a boolean");
    assert_eq!(parsed.optional_string(0), Some("a".to_string()));
    assert_eq!(parsed.optional_string(1), None);
}

#[test]
fn blank_params_are_skipped_and_colon_with_nothing_is_empty() {
    let parsed = parse_validator("n:").unwrap();
    assert!(parsed.params.is_empty());
    let parsed = parse_validator("n:int(1),,int(2)").unwrap();
    assert_eq!(parsed.params, vec![ParamValue::Int(1), ParamValue::Int(2)]);
}

#[test]
fn param_value_text() {
    assert_eq!(ParamValue::Int(-12).to_text(), "-12");
    assert_eq!(ParamValue::Bool(true).to_text(), "true");
    assert_eq!(ParamValue::String("s".to_string()).to_text(), "s");
    assert_eq!(ParamValue::Int(3).as_int(), Some(3));
    assert_eq!(ParamValue::Int(3).as_bool(), None);
    assert_eq!(ParamValue::String("q".to_string()).into_string(), Some("q".to_string()));
}
