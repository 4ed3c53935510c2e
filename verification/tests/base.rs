use mapped_errors::codes::ErrorCodes;
use mapped_errors::error_type::ErrorType;
use mapped_errors::mapped::MappedErrors;

#[test]
fn test_error_type() {
    let dispatched: Result<(), MappedErrors> = Err(MappedErrors::new(
        "This is a test error".to_string(),
        Some(true),
        None,
        ErrorType::UndefinedError,
    ));

    let response = dispatched.unwrap_err();

    assert_eq!(response.error_type(), ErrorType::UndefinedError);
}

#[test]
fn test_error_msg() {
    let dispatched: Result<(), MappedErrors> = Err(MappedErrors::new(
        "This is a test error".to_string(),
        Some(true),
        None,
        ErrorType::UndefinedError,
    ));

    let response = dispatched.unwrap_err();

    assert_eq!(
        response.msg(),
        "[code=none,error_type=undefined-error] This is a test error"
    );
}

#[test]
fn test_from_msg() {
    let msg = "[code=none,error_type=undefined-error] This is a test error";

    let response = MappedErrors::from_str_msg(msg.to_string());

    assert_eq!(response.msg(), msg);
}

#[test]
fn round_trip_with_code() {
    let e = MappedErrors::new(
        "boom".to_string(),
        Some(true),
        None,
        ErrorType::CreationError,
    )
    .with_code("AB12".to_string());

    let back = MappedErrors::from_str_msg(e.msg());

    assert_eq!(back.error_type(), ErrorType::CreationError);
    assert_eq!(back.msg, "boom");
    assert_eq!(back.code, ErrorCodes::Code("AB12".to_string()));
    assert_eq!(back.msg(), "[code=AB12,error_type=creation-error] boom");
}

#[test]
fn round_trip_without_code() {
    let e = MappedErrors::new(
        "fetch failed".to_string(),
        Some(true),
        None,
        ErrorType::FetchingError,
    );

    let back = MappedErrors::from_str_msg(e.msg());

    assert_eq!(back.error_type(), ErrorType::FetchingError);
    assert_eq!(back.msg, "fetch failed");
    assert_eq!(back.code, ErrorCodes::Unmapped);
}

#[test]
fn fresh_error_renders_code_none() {
    let e = MappedErrors::new(
        "nothing worked".to_string(),
        Some(false),
        None,
        ErrorType::ExecutionError,
    );

    assert_eq!(e.msg(), "[code=none,error_type=execution-error] nothing worked");
    assert_eq!(e.code, ErrorCodes::Unmapped);
}

#[test]
fn with_code_none_is_normalized() {
    let e = MappedErrors::new(
        "x".to_string(),
        Some(true),
        None,
        ErrorType::UseCaseError,
    )
    .with_code("none".to_string());

    assert_eq!(e.code, ErrorCodes::Unmapped);
    assert_eq!(e.msg(), "[code=none,error_type=use-case-error] x");
}

#[test]
fn with_code_keeps_message_and_type() {
    let e = MappedErrors::new(
        "kept".to_string(),
        Some(true),
        None,
        ErrorType::DeletionError,
    )
    .with_code("C9".to_string());

    assert_eq!(e.msg, "kept");
    assert_eq!(e.error_type(), ErrorType::DeletionError);
    assert_eq!(e.code, ErrorCodes::Code("C9".to_string()));
}

#[test]
fn with_code_replaces_earlier_code() {
    let e = MappedErrors::new(
        "twice".to_string(),
        Some(true),
        None,
        ErrorType::UpdatingError,
    )
    .with_code("OLD1".to_string())
    .with_code("NEW2".to_string());

    assert_eq!(e.code, ErrorCodes::Code("NEW2".to_string()));
}

#[test]
fn unknown_type_token_falls_back() {
    let response = MappedErrors::from_str_msg(
        "[code=AB12,error_type=totally-bogus] hi".to_string(),
    );

    assert_eq!(response.error_type(), ErrorType::UndefinedError);
    assert_eq!(response.code, ErrorCodes::Code("AB12".to_string()));
    assert_eq!(response.msg, "hi");
}

#[test]
fn malformed_input_falls_back() {
    let response = MappedErrors::from_str_msg("not a formatted error at all".to_string());

    assert_eq!(response.error_type(), ErrorType::UndefinedError);
    assert_eq!(response.code, ErrorCodes::Unmapped);
    assert_eq!(response.msg, "not a formatted error at all");
}

#[test]
fn parsed_code_none_is_normalized() {
    let response =
        MappedErrors::from_str_msg("[code=none,error_type=creation-error] hi".to_string());

    assert_eq!(response.error_type(), ErrorType::CreationError);
    assert_eq!(response.code, ErrorCodes::Unmapped);
    assert_eq!(response.msg, "hi");
}

#[test]
fn code_token_rejects_non_alphanumerics() {
    let text = "[code=ab_c,error_type=creation-error] hi";
    let response = MappedErrors::from_str_msg(text.to_string());

    assert_eq!(response.error_type(), ErrorType::UndefinedError);
    assert_eq!(response.code, ErrorCodes::Unmapped);
    assert_eq!(response.msg, text);
}

#[test]
fn tab_is_accepted_between_header_and_message() {
    let response =
        MappedErrors::from_str_msg("[code=X1,error_type=deletion-error]\thi there".to_string());

    assert_eq!(response.error_type(), ErrorType::DeletionError);
    assert_eq!(response.code, ErrorCodes::Code("X1".to_string()));
    assert_eq!(response.msg, "hi there");
}

#[test]
fn line_break_in_message_falls_back() {
    let text = "[code=X1,error_type=deletion-error] hi\nthere";
    let response = MappedErrors::from_str_msg(text.to_string());

    assert_eq!(response.error_type(), ErrorType::UndefinedError);
    assert_eq!(response.code, ErrorCodes::Unmapped);
    assert_eq!(response.msg, text);
}

#[test]
fn empty_message_does_not_round_trip() {
    let e = MappedErrors::new(String::new(), Some(true), None, ErrorType::CreationError);
    let text = e.msg();
    assert_eq!(text, "[code=none,error_type=creation-error] ");

    let back = MappedErrors::from_str_msg(text.clone());

    assert_eq!(back.error_type(), ErrorType::UndefinedError);
    assert_eq!(back.msg, text);
}

#[test]
fn chaining_flattens_one_level() {
    let cause = MappedErrors::new(
        "B".to_string(),
        Some(true),
        None,
        ErrorType::FetchingError,
    );
    let e = MappedErrors::new(
        "A".to_string(),
        Some(true),
        Some(cause),
        ErrorType::UseCaseError,
    );

    assert_eq!(e.msg, "[Current error] \"A\"; [Previous error] \"B\"");
    assert_eq!(e.error_type(), ErrorType::UseCaseError);
    assert_eq!(e.code, ErrorCodes::Unmapped);
    assert_eq!(
        e.msg(),
        "[code=none,error_type=use-case-error] [Current error] \"A\"; [Previous error] \"B\""
    );
}

#[test]
fn chaining_quotes_and_escapes_messages() {
    let cause = MappedErrors::new(
        "tab\there".to_string(),
        Some(true),
        None,
        ErrorType::UndefinedError,
    );
    let e = MappedErrors::new(
        "say \"hi\"".to_string(),
        Some(true),
        Some(cause),
        ErrorType::ExecutionError,
    );

    assert_eq!(
        e.msg,
        "[Current error] \"say \\\"hi\\\"\"; [Previous error] \"tab\\there\""
    );
}

#[test]
fn canonical_names_cover_all_types() {
    let cases = [
        (ErrorType::UndefinedError, "undefined-error"),
        (ErrorType::CreationError, "creation-error"),
        (ErrorType::UpdatingError, "updating-error"),
        (ErrorType::FetchingError, "fetching-error"),
        (ErrorType::DeletionError, "deletion-error"),
        (ErrorType::UseCaseError, "use-case-error"),
        (ErrorType::ExecutionError, "execution-error"),
        (ErrorType::InvalidRepositoryError, "invalid-repository-error"),
        (ErrorType::InvalidArgumentError, "invalid-argument-error"),
    ];

    for (t, name) in cases {
        assert_eq!(t.canonical_name(), name);
        assert_eq!(ErrorType::from_name(name), Some(t));
    }
}

#[test]
fn from_name_is_strict() {
    assert_eq!(ErrorType::from_name("Creation-Error"), None);
    assert_eq!(ErrorType::from_name("creation-error "), None);
    assert_eq!(ErrorType::from_name(""), None);
}

#[test]
fn code_equality_is_structural() {
    assert_eq!(ErrorCodes::Code("X".to_string()), ErrorCodes::Code("X".to_string()));
    assert_ne!(ErrorCodes::Code("X".to_string()), ErrorCodes::Code("Y".to_string()));
    assert_ne!(ErrorCodes::Code("none".to_string()), ErrorCodes::Unmapped);
    assert_eq!(ErrorCodes::default(), ErrorCodes::Unmapped);
}

#[test]
fn every_type_round_trips_through_text() {
    let types = [
        ErrorType::UndefinedError,
        ErrorType::CreationError,
        ErrorType::UpdatingError,
        ErrorType::FetchingError,
        ErrorType::DeletionError,
        ErrorType::UseCaseError,
        ErrorType::ExecutionError,
        ErrorType::InvalidRepositoryError,
        ErrorType::InvalidArgumentError,
    ];

    for t in types {
        let e = MappedErrors::new("m".to_string(), None, None, t).with_code("Z0".to_string());
        let back = MappedErrors::from_str_msg(e.msg());
        assert_eq!(back.error_type(), t);
        assert_eq!(back.msg, "m");
        assert_eq!(back.code, ErrorCodes::Code("Z0".to_string()));
    }
}
