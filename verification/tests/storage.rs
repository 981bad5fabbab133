use containerless::storage::FunctionStorage;
use containerless::storage_error::Error;

#[test]
fn created_source_is_got_back_byte_for_byte() {
    let mut storage = FunctionStorage::new();
    let source = "function h(req,resp){resp('ok')} // \u{e9}\n\t\u{0}";
    assert!(storage.create_function("hello", source.to_string()).is_ok());
    assert_eq!(storage.get_function("hello").unwrap().as_bytes(), source.as_bytes());
}

#[test]
fn second_create_is_a_conflict_and_keeps_the_first_source() {
    let mut storage = FunctionStorage::new();
    storage.create_function("x", "first".to_string()).unwrap();
    match storage.create_function("x", "second".to_string()) {
        Err(Error::FileConflict(name)) => assert_eq!(name, "x"),
        other => panic!("expected a conflict, got {:?}", other),
    }
    assert_eq!(storage.get_function("x").unwrap(), "first");
}

#[test]
fn missing_function_is_not_found() {
    let mut storage = FunctionStorage::new();
    match storage.get_function("ghost") {
        Err(Error::FileNotFound(name)) => assert_eq!(name, "ghost"),
        other => panic!("expected a missing file, got {:?}", other),
    }
    match storage.delete_function("ghost") {
        Err(Error::FileNotFound(name)) => assert_eq!(name, "ghost"),
        other => panic!("expected a missing file, got {:?}", other),
    }
}

#[test]
fn deleted_function_is_gone_and_can_be_created_again() {
    let mut storage = FunctionStorage::new();
    storage.create_function("a", "1".to_string()).unwrap();
    storage.create_function("b", "2".to_string()).unwrap();
    assert!(storage.delete_function("a").is_ok());
    assert!(storage.get_function("a").is_err());
    assert_eq!(storage.list_functions(), vec!["b".to_string()]);
    storage.create_function("a", "3".to_string()).unwrap();
    assert_eq!(storage.get_function("a").unwrap(), "3");
    assert_eq!(storage.list_functions(), vec!["b".to_string(), "a".to_string()]);
}
