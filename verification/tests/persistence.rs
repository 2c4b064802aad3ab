use acrawl_runtime::script::persistence::{validate_script_name, PersistenceError};

#[test]
fn test_validate_script_name_valid() {
    assert!(validate_script_name("my_script").is_ok());
    assert!(validate_script_name("my-script").is_ok());
    assert!(validate_script_name("MyScript123").is_ok());
    assert!(validate_script_name("_script").is_ok());
    assert!(validate_script_name("script_123-test").is_ok());
}

#[test]
fn test_validate_script_name_invalid() {
    assert!(validate_script_name("").is_err());
    assert!(validate_script_name("my/script").is_err());
    assert!(validate_script_name("my\\script").is_err());
    assert!(validate_script_name("my script").is_err());
    assert!(validate_script_name("my.script").is_err());
    assert!(validate_script_name("my@script").is_err());
}

fn reason(name: &str) -> String {
    match validate_script_name(name) {
        Err(PersistenceError::InvalidName(msg)) => msg,
        other => panic!("unexpected {other:?}"),
    }
}

#[test]
fn script_name_errors_say_why() {
    assert_eq!(reason(""), "script name cannot be empty");
    assert_eq!(reason("a\0b"), "script name cannot contain null bytes");
    assert_eq!(reason("a/b"), "script name cannot contain path separators");
    assert_eq!(
        reason("a.b"),
        "script name must contain only alphanumeric characters, underscores, and hyphens"
    );
    assert!(validate_script_name("naïve").is_ok());
}
