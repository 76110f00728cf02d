use confconv::{convert, decode, encode, format_file, validate, ConfValue, EncodeError, Error, Format};

fn compact_json(text: &str, from: Format) -> String {
    match convert(text, from, Format::Json, false) {
        Ok(s) => s,
        Err(_) => panic!("conversion to JSON failed"),
    }
}

#[test]
fn validate_accepts_empty_object() {
    assert!(validate("{}", Format::Json).is_ok());
}

#[test]
fn validate_rejects_unclosed_object() {
    match validate("{", Format::Json) {
        Err(Error::Parse { format, source }) => {
            assert_eq!(format, Format::Json);
            assert!(!source.is_empty());
        }
        _ => panic!("expected a parse error"),
    }
}

#[test]
fn validate_yaml_and_toml() {
    assert!(validate("a: 1\nb: [x, y]\n", Format::Yaml).is_ok());
    assert!(validate("a = 1\n[t]\nb = \"x\"\n", Format::Toml).is_ok());
    assert!(matches!(validate("a = \n", Format::Toml), Err(Error::Parse { format: Format::Toml, .. })));
    assert!(matches!(validate("a: [1, 2\n", Format::Yaml), Err(Error::Parse { format: Format::Yaml, .. })));
}

#[test]
fn json_to_yaml_and_back_keeps_structure() {
    let src = r#"{"a":1,"b":[true,null]}"#;
    let yaml = match convert(src, Format::Json, Format::Yaml, false) {
        Ok(s) => s,
        Err(_) => panic!("JSON to YAML failed"),
    };
    assert_eq!(compact_json(&yaml, Format::Yaml), src);
}

#[test]
fn null_into_toml_fails_by_name() {
    let src = r#"{"a":1,"b":[true,null]}"#;
    assert!(matches!(
        convert(src, Format::Json, Format::Toml, false),
        Err(Error::Encode(EncodeError::NullValue))
    ));
}

#[test]
fn pretty_json_indents_four_spaces() {
    match format_file(r#"{"a":1}"#, Format::Json, 4) {
        Ok(s) => assert_eq!(s, "{\n    \"a\": 1\n}"),
        Err(_) => panic!("formatting failed"),
    }
}

#[test]
fn pretty_json_indents_each_level() {
    match format_file(r#"{"a":{"b":[1]}}"#, Format::Json, 2) {
        Ok(s) => assert_eq!(s, "{\n  \"a\": {\n    \"b\": [\n      1\n    ]\n  }\n}"),
        Err(_) => panic!("formatting failed"),
    }
}

#[test]
fn sequence_root_into_toml_is_unsupported() {
    let v = ConfValue::Sequence(vec![ConfValue::Bool(true), ConfValue::Text("x".to_string())]);
    assert!(matches!(encode(&v, Format::Toml, false, 2), Err(Error::Encode(EncodeError::UnsupportedRoot))));
    assert!(matches!(encode(&v, Format::Toml, true, 2), Err(Error::Encode(EncodeError::UnsupportedRoot))));
}

#[test]
fn scalar_root_into_toml_is_unsupported() {
    assert!(matches!(
        convert("42", Format::Json, Format::Toml, false),
        Err(Error::Encode(EncodeError::UnsupportedRoot))
    ));
}

#[test]
fn built_value_encodes_to_each_format() {
    let v = ConfValue::Mapping(vec![
        ("name".to_string(), ConfValue::Text("demo".to_string())),
        ("on".to_string(), ConfValue::Bool(false)),
    ]);
    match encode(&v, Format::Json, false, 2) {
        Ok(s) => assert_eq!(s, r#"{"name":"demo","on":false}"#),
        Err(_) => panic!("JSON encode failed"),
    }
    match encode(&v, Format::Toml, false, 2) {
        Ok(s) => assert_eq!(s, "name = \"demo\"\non = false\n"),
        Err(_) => panic!("TOML encode failed"),
    }
    match encode(&v, Format::Yaml, false, 2) {
        Ok(s) => assert_eq!(s, "name: demo\non: false"),
        Err(_) => panic!("YAML encode failed"),
    }
}

#[test]
fn compact_json_keeps_key_order() {
    assert_eq!(compact_json(r#"{"z":1,"a":2,"m":3}"#, Format::Json), r#"{"z":1,"a":2,"m":3}"#);
}

#[test]
fn repeated_key_keeps_last_value() {
    assert_eq!(compact_json(r#"{"k":1,"k":2}"#, Format::Json), r#"{"k":2}"#);
}

#[test]
fn integers_and_floats_stay_apart() {
    assert_eq!(compact_json(r#"{"i":3,"f":3.5,"n":-7}"#, Format::Json), r#"{"i":3,"f":3.5,"n":-7}"#);
    assert_eq!(compact_json("i = 3\nf = 3.5\n", Format::Toml), r#"{"i":3,"f":3.5}"#);
}

#[test]
fn toml_tables_become_mappings() {
    let src = "title = \"x\"\n[owner]\nname = \"Lisa\"\n";
    assert_eq!(compact_json(src, Format::Toml), r#"{"title":"x","owner":{"name":"Lisa"}}"#);
}

#[test]
fn json_to_toml_writes_tables() {
    match convert(r#"{"title":"x","owner":{"name":"Lisa"}}"#, Format::Json, Format::Toml, true) {
        Ok(s) => assert_eq!(s, "title = \"x\"\n\n[owner]\nname = \"Lisa\"\n"),
        Err(_) => panic!("JSON to TOML failed"),
    }
}

#[test]
fn round_trip_each_format() {
    let src = r#"{"a":1,"b":[true,false],"c":{"d":"e","f":2.5}}"#;
    for f in [Format::Json, Format::Yaml, Format::Toml] {
        let v = match decode(src, Format::Json) {
            Ok(v) => v,
            Err(_) => panic!("decode failed"),
        };
        let text = match encode(&v, f, false, 2) {
            Ok(t) => t,
            Err(_) => panic!("encode failed"),
        };
        let back = match decode(&text, f) {
            Ok(v) => v,
            Err(_) => panic!("decode of encoded text failed"),
        };
        match encode(&back, Format::Json, false, 2) {
            Ok(t) => assert_eq!(t, src),
            Err(_) => panic!("encode failed"),
        }
    }
}

#[test]
fn reformat_is_idempotent() {
    let cases = [
        (r#"{"b": [1, 2], "a": {"x": null}}"#, Format::Json),
        ("b:\n- 1\n- 2\na:\n  x: null\n", Format::Yaml),
        ("b = [1, 2]\n[a]\nx = \"y\"\n", Format::Toml),
    ];
    for (text, f) in cases {
        for indent in [1usize, 3, 8] {
            let once = match format_file(text, f, indent) {
                Ok(s) => s,
                Err(_) => panic!("first format failed"),
            };
            let twice = match format_file(&once, f, indent) {
                Ok(s) => s,
                Err(_) => panic!("second format failed"),
            };
            assert_eq!(once, twice);
        }
    }
}

#[test]
fn pretty_toml_spreads_arrays() {
    match format_file("a = [1, 2]\n", Format::Toml, 2) {
        Ok(s) => assert_eq!(s, "a = [\n    1,\n    2,\n]\n"),
        Err(_) => panic!("formatting failed"),
    }
}

#[test]
fn yaml_ignores_pretty_flag() {
    let a = convert(r#"{"a":[1,2]}"#, Format::Json, Format::Yaml, true);
    let b = convert(r#"{"a":[1,2]}"#, Format::Json, Format::Yaml, false);
    match (a, b) {
        (Ok(x), Ok(y)) => {
            assert_eq!(x, y);
            assert_eq!(x, "a:\n  - 1\n  - 2");
        }
        _ => panic!("conversion failed"),
    }
}

#[test]
fn parse_error_names_source_format() {
    assert!(matches!(
        convert("a: [", Format::Yaml, Format::Json, false),
        Err(Error::Parse { format: Format::Yaml, .. })
    ));
    assert!(matches!(
        format_file("{", Format::Json, 2),
        Err(Error::Parse { format: Format::Json, .. })
    ));
}

#[test]
fn toml_datetime_decodes() {
    assert!(decode("when = 1979-05-27T07:32:00Z\n", Format::Toml).is_ok());
}

#[test]
fn toml_datetime_becomes_text() {
    assert_eq!(
        compact_json("when = 1979-05-27T07:32:00Z\n", Format::Toml),
        r#"{"when":"1979-05-27T07:32:00Z"}"#
    );
}

#[test]
fn numbers_encode_as_written() {
    let v = ConfValue::Mapping(vec![
        ("port".to_string(), ConfValue::Number(serde_json::Number::from(8080))),
        ("ratio".to_string(), ConfValue::Number(serde_json::Number::from_f64(0.5).unwrap())),
    ]);
    match encode(&v, Format::Toml, false, 2) {
        Ok(s) => assert_eq!(s, "port = 8080\nratio = 0.5\n"),
        Err(_) => panic!("TOML encode failed"),
    }
}

#[test]
fn yaml_to_toml_nested_mapping() {
    match convert("server:\n  host: localhost\n  port: 80\n", Format::Yaml, Format::Toml, false) {
        Ok(s) => assert_eq!(s, "[server]\nhost = \"localhost\"\nport = 80\n"),
        Err(_) => panic!("YAML to TOML failed"),
    }
}

#[test]
fn toml_reformat_keeps_datetimes_and_special_floats() {
    let src = "d = 1979-05-27T07:32:00Z\nx = nan\ny = inf\n";
    match format_file(src, Format::Toml, 2) {
        Ok(s) => assert_eq!(s, src),
        Err(_) => panic!("formatting failed"),
    }
}

#[test]
fn yaml_reformat_ignores_indent() {
    let src = "a:\n  b: [1, 2]\n";
    let one = format_file(src, Format::Yaml, 1);
    let eight = format_file(src, Format::Yaml, 8);
    match (one, eight) {
        (Ok(x), Ok(y)) => assert_eq!(x, y),
        _ => panic!("formatting failed"),
    }
}

#[test]
fn json_indent_two_matches_pretty_convert() {
    let src = r#"{"a":{"b":[1,2]},"c":"d"}"#;
    match (format_file(src, Format::Json, 2), convert(src, Format::Json, Format::Json, true)) {
        (Ok(x), Ok(y)) => assert_eq!(x, y),
        _ => panic!("formatting failed"),
    }
}

#[test]
fn validate_agrees_with_conversion_to_json() {
    let cases = [
        ("{\"a\": [1, 2]}", Format::Json),
        ("{\"a\": ", Format::Json),
        ("a: [1, 2]\n", Format::Yaml),
        ("a: [1, 2\n", Format::Yaml),
        ("a = 1\n", Format::Toml),
        ("a = \n", Format::Toml),
    ];
    for (text, f) in cases {
        assert_eq!(validate(text, f).is_ok(), convert(text, f, Format::Json, false).is_ok());
    }
}

#[test]
fn toml_to_toml_convert_keeps_datetimes() {
    let src = "d = 1979-05-27T07:32:00Z\nx = -inf\n";
    match convert(src, Format::Toml, Format::Toml, false) {
        Ok(s) => assert_eq!(s, src),
        Err(_) => panic!("conversion failed"),
    }
}

#[test]
fn parse_error_carries_parser_message() {
    let expected = match serde_json::from_str::<serde_json::Value>("{") {
        Err(e) => e.to_string(),
        Ok(_) => panic!("serde_json accepted an unclosed object"),
    };
    match convert("{", Format::Json, Format::Yaml, false) {
        Err(Error::Parse { source, .. }) => assert_eq!(source, expected),
        _ => panic!("expected a parse error"),
    }
    match format_file("{", Format::Json, 2) {
        Err(Error::Parse { source, .. }) => assert_eq!(source, expected),
        _ => panic!("expected a parse error"),
    }
    let toml_expected = match toml::from_str::<toml::Value>("a = \n") {
        Err(e) => e.to_string(),
        Ok(_) => panic!("toml accepted a missing value"),
    };
    match validate("a = \n", Format::Toml) {
        Err(Error::Parse { source, .. }) => assert_eq!(source, toml_expected),
        _ => panic!("expected a parse error"),
    }
}
