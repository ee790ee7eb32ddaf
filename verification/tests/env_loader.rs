use simpled::env_loader::{load_env_file, parse_env_string, parse_env_variable, EnvDescriptor};
use simpled::error::{EnvParseError, ErrorKind};
use simpled::spec::EnvVariable;

#[test]
fn test_parse_env_string() {
    let res = parse_env_string("FOO=bar").unwrap();
    assert_eq!(res, EnvDescriptor { name: "FOO".to_string(), default: Some("bar".to_string()) });

    let res = parse_env_string("FOO=\"bar\"").unwrap();
    assert_eq!(res, EnvDescriptor { name: "FOO".to_string(), default: Some("bar".to_string()) });

    let res = parse_env_string("FOO='bar'").unwrap();
    assert_eq!(res, EnvDescriptor { name: "FOO".to_string(), default: Some("bar".to_string()) });

    let res = parse_env_string("FOO=bar=bar");
    assert!(res.is_err());

    let res = parse_env_string("FOO=\"bar=bar\"").unwrap();
    assert_eq!(res, EnvDescriptor { name: "FOO".to_string(), default: Some("bar=bar".to_string()) });

    let res = parse_env_string("FOO").unwrap();
    assert_eq!(res, EnvDescriptor { name: "FOO".to_string(), default: None });

    let res = parse_env_string("  FOO  =  bar  ").unwrap();
    assert_eq!(res, EnvDescriptor { name: "FOO".to_string(), default: Some("bar".to_string()) });

    assert!(parse_env_string("").is_err());
    assert!(parse_env_string("=").is_err());
}

#[test]
fn test_load_env_file() {
    let lines = vec![
        "FOO=bar".to_string(),
        "# Comment".to_string(),
        "".to_string(),
        "BAZ=\"qux\"".to_string(),
    ];
    let vars = load_env_file(&lines).unwrap();
    assert_eq!(vars.len(), 2);
    assert_eq!(vars[0], EnvVariable { name: "FOO".to_string(), value: "bar".to_string() });
    assert_eq!(vars[1], EnvVariable { name: "BAZ".to_string(), value: "qux".to_string() });
}

#[test]
fn test_load_env_file_error() {
    let lines = vec!["FOO".to_string()];
    let res = load_env_file(&lines);
    assert!(res.is_err());
}

#[test]
fn parse_env_string_names_each_failure() {
    assert_eq!(parse_env_string("   "), Err(EnvParseError::Empty));
    assert_eq!(parse_env_string("\t\n"), Err(EnvParseError::Empty));
    assert_eq!(parse_env_string("=value"), Err(EnvParseError::EmptyName));
    assert_eq!(parse_env_string("  = value"), Err(EnvParseError::EmptyName));
    assert_eq!(parse_env_string("A=\""), Err(EnvParseError::InvalidQuotedValue));
    assert_eq!(parse_env_string("A='"), Err(EnvParseError::InvalidQuotedValue));
    assert_eq!(parse_env_string("A=b=c"), Err(EnvParseError::UnquotedEquals));
    assert_eq!(parse_env_string("A=\"b=c"), Err(EnvParseError::InvalidQuotedValue));
}

#[test]
fn parse_env_string_refuses_an_unterminated_quote() {
    let err = parse_env_string("FOO=\"bar").unwrap_err();
    assert_eq!(err, EnvParseError::InvalidQuotedValue);
    assert_eq!(err.kind(), ErrorKind::MalformedInput);
    assert_eq!(parse_env_string("FOO='bar"), Err(EnvParseError::InvalidQuotedValue));
    assert_eq!(parse_env_string("FOO = \"bar baz  "), Err(EnvParseError::InvalidQuotedValue));
    // A quote of the other kind does not close.
    assert_eq!(parse_env_string("A=\"b'"), Err(EnvParseError::InvalidQuotedValue));
    assert_eq!(parse_env_string("A='b\""), Err(EnvParseError::InvalidQuotedValue));
    // Nor does a quote that something follows.
    assert_eq!(parse_env_string("A=\"b\"c"), Err(EnvParseError::InvalidQuotedValue));
    // A value with an unterminated quote is no variable and no line of an env file.
    assert_eq!(parse_env_variable("FOO=\"bar"), Err(EnvParseError::InvalidQuotedValue));
    let lines = vec!["A=1".to_string(), "FOO=\"bar".to_string()];
    let err = load_env_file(&lines).unwrap_err();
    assert_eq!(err.line, 2);
    assert_eq!(err.cause, EnvParseError::InvalidQuotedValue);
    // A quote inside a value, or at its end only, opens nothing.
    assert_eq!(
        parse_env_string("A=b\"c"),
        Ok(EnvDescriptor { name: "A".to_string(), default: Some("b\"c".to_string()) })
    );
    assert_eq!(
        parse_env_string("A=bar\""),
        Ok(EnvDescriptor { name: "A".to_string(), default: Some("bar\"".to_string()) })
    );
    // The first and the last quote make the pair, whatever stands between.
    assert_eq!(
        parse_env_string("A=\"b\"c\""),
        Ok(EnvDescriptor { name: "A".to_string(), default: Some("b\"c".to_string()) })
    );
}

#[test]
fn parse_env_string_errors_are_malformed_input() {
    assert_eq!(parse_env_string("").unwrap_err().kind(), ErrorKind::MalformedInput);
    assert_eq!(parse_env_string("=x").unwrap_err().kind(), ErrorKind::MalformedInput);
    assert_eq!(parse_env_string("A=b=c").unwrap_err().kind(), ErrorKind::MalformedInput);
    assert_eq!(parse_env_variable("A").unwrap_err().kind(), ErrorKind::MalformedInput);
}

#[test]
fn parse_env_string_edge_values() {
    // An empty value is a value.
    assert_eq!(
        parse_env_string("A="),
        Ok(EnvDescriptor { name: "A".to_string(), default: Some(String::new()) })
    );
    // A pair of quotes wraps the empty value.
    assert_eq!(
        parse_env_string("A=\"\""),
        Ok(EnvDescriptor { name: "A".to_string(), default: Some(String::new()) })
    );
    // Blanks inside quotes stay.
    assert_eq!(
        parse_env_string("A = ' b '"),
        Ok(EnvDescriptor { name: "A".to_string(), default: Some(" b ".to_string()) })
    );
    // A quote of the other kind inside a pair stays.
    assert_eq!(
        parse_env_string("A=\"b'\""),
        Ok(EnvDescriptor { name: "A".to_string(), default: Some("b'".to_string()) })
    );
    // Characters beyond ASCII count one by one.
    assert_eq!(
        parse_env_string("\u{a0}NÄME\u{3000}=\u{2003}wért\u{2028}"),
        Ok(EnvDescriptor { name: "NÄME".to_string(), default: Some("wért".to_string()) })
    );
}

#[test]
fn parse_env_variable_needs_a_value() {
    assert_eq!(
        parse_env_variable("FOO=bar"),
        Ok(EnvVariable { name: "FOO".to_string(), value: "bar".to_string() })
    );
    assert_eq!(
        parse_env_variable(" FOO "),
        Err(EnvParseError::MissingValue { input: " FOO ".to_string() })
    );
    assert_eq!(parse_env_variable("FOO=a=b"), Err(EnvParseError::UnquotedEquals));
}

#[test]
fn load_env_file_reports_the_line() {
    let lines = vec![
        "A=1".to_string(),
        "   # indented comment".to_string(),
        "  B  ".to_string(),
        "C=3".to_string(),
    ];
    let err = load_env_file(&lines).unwrap_err();
    assert_eq!(err.line, 3);
    assert_eq!(err.text, "B");
    assert_eq!(err.cause, EnvParseError::MissingValue { input: "B".to_string() });
    assert_eq!(err.kind(), ErrorKind::MalformedInput);
}

#[test]
fn load_env_file_keeps_order_and_repeats() {
    let lines = vec!["A=1".to_string(), "B=2".to_string(), "A=3".to_string()];
    let vars = load_env_file(&lines).unwrap();
    assert_eq!(
        vars,
        vec![
            EnvVariable { name: "A".to_string(), value: "1".to_string() },
            EnvVariable { name: "B".to_string(), value: "2".to_string() },
            EnvVariable { name: "A".to_string(), value: "3".to_string() },
        ]
    );
    let none: Vec<String> = Vec::new();
    assert_eq!(load_env_file(&none), Ok(Vec::new()));
}
