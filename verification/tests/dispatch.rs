use command_registry::error::DispatchError;
use command_registry::greet::greet;
use command_registry::registry::Command;
use command_registry::registry::Registry;
use command_registry::value::ValKind;
use command_registry::value::Value;

#[test]
fn greet_formats_exact_greeting() {
    assert_eq!(greet("World"), "Hello, World! You've been greeted!");
}

#[test]
fn greet_result_contains_name() {
    let mut registry = Registry::new();
    registry.register("greet".to_string(), Command::Greet).unwrap();
    let args = vec![Value::Str("Alice".to_string())];
    let out = registry.invoke("greet", &args).unwrap();
    match out {
        Value::Str(s) => assert!(s.contains("Alice")),
        other => panic!("expected a string result, got {:?}", other),
    }
}

#[test]
fn greet_empty_name_is_valid() {
    let mut registry = Registry::new();
    registry.register("greet".to_string(), Command::Greet).unwrap();
    let args = vec![Value::Str(String::new())];
    let out = registry.invoke("greet", &args).unwrap();
    assert_eq!(out, Value::Str("Hello, ! You've been greeted!".to_string()));
}

#[test]
fn unknown_command_is_rejected() {
    let mut registry = Registry::new();
    registry.register("greet".to_string(), Command::Greet).unwrap();
    let err = registry.invoke("unknown_command", &Vec::new()).unwrap_err();
    assert_eq!(err, DispatchError::CommandNotFound);
}

#[test]
fn empty_registry_knows_nothing() {
    let registry = Registry::new();
    let err = registry.invoke("greet", &vec![Value::Str("a".to_string())]).unwrap_err();
    assert_eq!(err, DispatchError::CommandNotFound);
}

#[test]
fn wrong_arity_is_rejected() {
    let mut registry = Registry::new();
    registry.register("greet".to_string(), Command::Greet).unwrap();
    let err = registry.invoke("greet", &Vec::new()).unwrap_err();
    assert_eq!(err, DispatchError::InvalidArguments);
}

#[test]
fn wrong_kind_is_rejected() {
    let mut registry = Registry::new();
    registry.register("greet".to_string(), Command::Greet).unwrap();
    let err = registry.invoke("greet", &vec![Value::Int(3)]).unwrap_err();
    assert_eq!(err, DispatchError::InvalidArguments);
    let err = registry.invoke("greet", &vec![Value::Bool(true)]).unwrap_err();
    assert_eq!(err, DispatchError::InvalidArguments);
}

#[test]
fn too_many_arguments_are_rejected() {
    let mut registry = Registry::new();
    registry.register("greet".to_string(), Command::Greet).unwrap();
    let args = vec![
        Value::Str("a".to_string()),
        Value::Str("b".to_string()),
    ];
    let err = registry.invoke("greet", &args).unwrap_err();
    assert_eq!(err, DispatchError::InvalidArguments);
}

#[test]
fn duplicate_registration_keeps_first_entry() {
    let mut registry = Registry::new();
    registry.register("greet".to_string(), Command::Greet).unwrap();
    let err = registry.register("greet".to_string(), Command::Greet).unwrap_err();
    assert_eq!(err, DispatchError::DuplicateRegistration);
    let args = vec![Value::Str("Bob".to_string())];
    let out = registry.invoke("greet", &args).unwrap();
    assert_eq!(out, Value::Str("Hello, Bob! You've been greeted!".to_string()));
}

#[test]
fn repeated_invocation_is_identical() {
    let mut registry = Registry::new();
    registry.register("greet".to_string(), Command::Greet).unwrap();
    let first = registry.invoke("greet", &vec![Value::Str("Eve".to_string())]);
    let second = registry.invoke("greet", &vec![Value::Str("Eve".to_string())]);
    assert_eq!(first, second);
    assert_eq!(first.unwrap(), Value::Str("Hello, Eve! You've been greeted!".to_string()));
}

#[test]
fn same_command_under_second_name_is_allowed() {
    let mut registry = Registry::new();
    registry.register("greet".to_string(), Command::Greet).unwrap();
    registry.register("hello".to_string(), Command::Greet).unwrap();
    let out = registry.invoke("hello", &vec![Value::Str("Ada".to_string())]).unwrap();
    assert_eq!(out, Value::Str("Hello, Ada! You've been greeted!".to_string()));
}

#[test]
fn greet_signature_is_one_string() {
    assert_eq!(Command::Greet.signature(), vec![ValKind::Str]);
}

#[test]
fn value_kinds() {
    assert_eq!(Value::Str(String::new()).kind(), ValKind::Str);
    assert_eq!(Value::Int(-7).kind(), ValKind::Int);
    assert_eq!(Value::Bool(false).kind(), ValKind::Bool);
}

#[test]
fn error_messages() {
    assert_eq!(
        DispatchError::DuplicateRegistration.message(),
        "duplicate registration"
    );
    assert_eq!(DispatchError::CommandNotFound.message(), "command not found");
    assert_eq!(DispatchError::InvalidArguments.message(), "invalid arguments");
}
