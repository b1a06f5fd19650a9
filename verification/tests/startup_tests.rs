use dream_stack::startup::{parse_connection_string, StartupError};

#[test]
fn unset_connection_string_is_a_startup_error() {
    let r = parse_connection_string(None);
    assert_eq!(r, Err(StartupError::MissingConnectionString));
}

#[test]
fn a_url_shaped_connection_string_is_accepted() {
    let r = parse_connection_string(Some("postgres://localhost/todos".to_string()));
    assert_eq!(r, Ok("postgres://localhost/todos".to_string()));
}

#[test]
fn unparsable_connection_strings_are_rejected() {
    for bad in ["", "nonsense", "://host", "scheme://", "a:b/c"] {
        let r = parse_connection_string(Some(bad.to_string()));
        assert_eq!(r, Err(StartupError::InvalidConnectionString), "input: {:?}", bad);
    }
}

#[test]
fn startup_error_messages_are_fixed() {
    assert_eq!(
        StartupError::MissingConnectionString.message().as_str(),
        "connection string is not set"
    );
    assert_eq!(
        StartupError::InvalidConnectionString.message().as_str(),
        "connection string is not parsable"
    );
}
