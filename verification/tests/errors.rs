use anystore::errors::check_content;
use anystore::errors::parse_port;
use anystore::errors::port_from;
use anystore::errors::AppError;
use anystore::errors::ConfigError;
use anystore::errors::ValidationError;


#[test]
fn test_config_error_display() {
    let err = ConfigError::MissingField {
        field: "username".to_string(),
    };
    assert_eq!(err.to_string(), "missing required field: 'username'");

    let err = ConfigError::OutOfRange {
        field: "port".to_string(),
        value: 70000,
        min: 1,
        max: 65535,
    };
    assert_eq!(
        err.to_string(),
        "value 70000 for 'port' out of range [1, 65535]"
    );
}

#[test]
fn test_validation_error_display() {
    let err = ValidationError::new("email", "must contain @");
    assert_eq!(
        err.to_string(),
        "validation failed for 'email': must contain @"
    );
}

#[test]
fn test_error_is_debug() {
    let err = ConfigError::MissingField {
        field: "host".to_string(),
    };

    let debug_str = format!("{:?}", err);
    assert!(debug_str.contains("MissingField"));
}

#[test]
fn test_error_source_chain() {
    let inner = ConfigError::MissingField {
        field: "database".to_string(),
    };
    let outer = AppError::Config(inner);

    assert!(outer.to_string().contains("configuration error"));

    let source = outer.source_text().unwrap();
    assert!(source.contains("missing required field"));
}

#[test]
fn test_parse_error_chain() {
    let parse_err = "not_a_number".parse::<i32>().unwrap_err();
    let app_err = AppError::Parse {
        context: "parsing port number".to_string(),
        source: parse_err,
    };

    assert!(app_err.to_string().contains("parse error"));
    assert!(app_err.source_text().is_some());
}

#[test]
fn test_walk_error_chain() {
    let inner = ConfigError::MissingField {
        field: "port".to_string(),
    };
    let outer = AppError::Config(inner);

    let mut messages = Vec::new();
    messages.push(outer.to_string());
    if let Some(cause) = outer.source_text() {
        messages.push(cause);
    }

    assert_eq!(messages.len(), 2);
    assert!(messages[0].contains("configuration error"));
    assert!(messages[1].contains("missing required field"));
}


#[test]
fn test_from_config_error() {
    let config_err = ConfigError::MissingField {
        field: "test".to_string(),
    };
    let app_err: AppError = config_err.into();

    assert!(matches!(app_err, AppError::Config(_)));
}

#[test]
fn test_parse_port_valid() {
    assert_eq!(parse_port("8080").unwrap(), 8080);
    assert_eq!(parse_port("443").unwrap(), 443);
}

#[test]
fn test_parse_port_invalid() {

    let err = parse_port("abc").unwrap_err();
    assert!(matches!(err, AppError::Parse { .. }));

    let err = parse_port("70000").unwrap_err();
    assert!(matches!(
        err,
        AppError::Config(ConfigError::OutOfRange { .. })
    ));
}

#[test]
fn config_error_invalid_value_text() {
    let err = ConfigError::InvalidValue {
        field: "mode".to_string(),
        value: "fast".to_string(),
        reason: "unknown".to_string(),
    };
    assert_eq!(err.to_string(), "invalid value 'fast' for field 'mode': unknown");
    let err = ConfigError::OutOfRange { field: "t".to_string(), value: -3, min: -1, max: 1 };
    assert_eq!(err.to_string(), "value -3 for 't' out of range [-1, 1]");
}

#[test]
fn parse_port_edges() {
    assert_eq!(parse_port("1").unwrap(), 1);
    assert_eq!(parse_port("65535").unwrap(), 65535);
    assert!(matches!(parse_port("0"), Err(AppError::Config(ConfigError::OutOfRange { value: 0, min: 1, max: 65535, .. }))));
    assert!(matches!(parse_port("65536"), Err(AppError::Config(_))));
    assert!(matches!(parse_port("-1"), Err(AppError::Config(_))));
    let err = parse_port("4x").unwrap_err();
    assert_eq!(err.to_string(), "parse error: invalid port: '4x'");
    assert!(matches!(port_from(Ok(80), "ignored"), Ok(80)));
}

#[test]
fn empty_content_is_a_missing_field() {
    assert_eq!(check_content("a=1".to_string()).unwrap(), "a=1");
    let err = check_content(String::new()).unwrap_err();
    assert_eq!(err.to_string(), "configuration error: missing required field: 'content'");
    let io = AppError::from(std::io::Error::new(std::io::ErrorKind::Other, "boom"));
    assert_eq!(io.to_string(), "IO error: boom");
}

#[test]
fn parse_error_names_its_cause() {
    let err = parse_port("abc").unwrap_err();
    assert_eq!(err.source_text(), Some("invalid digit found in string".to_string()));
    let err = parse_port("").unwrap_err();
    assert_eq!(err.source_text(), Some("cannot parse integer from empty string".to_string()));
    assert_eq!(err.to_string(), "parse error: invalid port: ''");
}
