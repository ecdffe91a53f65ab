use simple_messenger::validation::{
    flatten, validate_confirm, validate_email, validate_name, validate_password,
    validation_error_message, FieldError, FlattenValidationError, ValidationErrors,
    ValidationErrorsKind, MAX_USER_NAME_SIZE, MAX_USER_PASSWORD_SIZE,
};

fn field(code: &str, message: Option<&str>) -> FieldError {
    FieldError { code: code.to_string(), message: message.map(|m| m.to_string()) }
}

fn leaf(name: &str, code: &str, message: Option<&str>) -> (String, ValidationErrorsKind) {
    (name.to_string(), ValidationErrorsKind::Field(vec![field(code, message)]))
}

#[test]
fn test_to_user_string() {
    let mut errors = ValidationErrors { entries: Vec::new() };

    errors.entries.push(leaf("field1", "code1", None));

    let struct_errors = ValidationErrors { entries: vec![leaf("struct_field", "struct_code", None)] };
    errors.entries.push((
        "struct".to_string(),
        ValidationErrorsKind::Struct(Box::new(struct_errors)),
    ));

    let v_errors_a = ValidationErrors {
        entries: vec![
            leaf("map_field1", "map_code1", None),
            leaf("map_field2", "map_code2", None),
        ],
    };
    let v_errors_b = ValidationErrors { entries: vec![leaf("map_field3", "map_code3", None)] };
    errors
        .entries
        .push(("list".to_string(), ValidationErrorsKind::List(vec![v_errors_a, v_errors_b])));

    errors.entries.push(leaf("field2", "code2", Some("message")));

    let mut sorted = flatten(errors);
    sorted.sort_unstable();

    assert_eq!(
        sorted,
        [
            FlattenValidationError {
                name: vec!["field1".to_string()],
                code: "code1".to_string(),
                message: None,
            },
            FlattenValidationError {
                name: vec!["field2".to_string()],
                code: "code2".to_string(),
                message: Some("message".to_string()),
            },
            FlattenValidationError {
                name: vec!["list".to_string(), "map_field1".to_string()],
                code: "map_code1".to_string(),
                message: None,
            },
            FlattenValidationError {
                name: vec!["list".to_string(), "map_field2".to_string()],
                code: "map_code2".to_string(),
                message: None,
            },
            FlattenValidationError {
                name: vec!["list".to_string(), "map_field3".to_string()],
                code: "map_code3".to_string(),
                message: None,
            },
            FlattenValidationError {
                name: vec!["struct".to_string(), "struct_field".to_string()],
                code: "struct_code".to_string(),
                message: None,
            },
        ],
    );
}

#[test]
fn flatten_keeps_depth_first_entry_order() {
    let nested = ValidationErrors { entries: vec![leaf("inner", "deep", None)] };
    let errors = ValidationErrors {
        entries: vec![
            leaf("first", "a", None),
            ("outer".to_string(), ValidationErrorsKind::Struct(Box::new(nested))),
            leaf("last", "z", Some("msg")),
        ],
    };
    let flat = flatten(errors);
    assert_eq!(flat.len(), 3);
    assert_eq!(flat[0].name, vec!["first".to_string()]);
    assert_eq!(flat[1].name, vec!["outer".to_string(), "inner".to_string()]);
    assert_eq!(flat[2].name, vec!["last".to_string()]);
    assert_eq!(flat[2].message, Some("msg".to_string()));
}

#[test]
fn error_message_renders_line_per_failure() {
    let errors = vec![
        FlattenValidationError {
            name: vec!["a".to_string()],
            code: "code1".to_string(),
            message: None,
        },
        FlattenValidationError {
            name: vec!["b".to_string()],
            code: "code2".to_string(),
            message: Some("hello".to_string()),
        },
    ];
    assert_eq!(validation_error_message(&errors), "code1: None\ncode2: hello\n");
}

#[test]
fn validate_email_accepts_and_rejects() {
    assert!(validate_email(&"a@x.com".to_string()).is_ok());
    let err = validate_email(&"not-an-email".to_string()).unwrap_err();
    assert_eq!(
        err,
        "email: Invalid email, only supports emails based on the HTML5 spec.\n".to_string()
    );
    assert!(validate_email(&"".to_string()).is_err());
}

#[test]
fn validate_password_bounds() {
    assert!(validate_password("Secret123").is_ok());
    assert_eq!(validate_password(""), Err("The password field should not be empty"));
    let long = "x".repeat(MAX_USER_PASSWORD_SIZE + 1);
    assert_eq!(validate_password(&long), Err("Shorten the password."));
    let exact = "x".repeat(MAX_USER_PASSWORD_SIZE);
    assert!(validate_password(&exact).is_ok());
}

#[test]
fn validate_confirm_compares() {
    assert!(validate_confirm(&"abc".to_string(), &"abc".to_string()).is_ok());
    assert_eq!(
        validate_confirm(&"abc".to_string(), &"abd".to_string()),
        Err("Passwords are not the same.")
    );
}

#[test]
fn validate_name_bounds() {
    assert!(validate_name(&"Ada".to_string()).is_ok());
    let err = validate_name(&"".to_string()).unwrap_err();
    assert_eq!(err, "length: None\n".to_string());
    let long = "x".repeat(MAX_USER_NAME_SIZE + 1);
    assert!(validate_name(&long).is_err());
    let exact = "x".repeat(MAX_USER_NAME_SIZE);
    assert!(validate_name(&exact).is_ok());
}
