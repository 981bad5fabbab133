use containerless::names::{
    function_name_of_replica_set, is_valid_function_name, replica_set_name, service_name,
    tracing_pod_name,
};

#[test]
fn function_names_are_letters_digits_underscore_and_hyphen() {
    assert!(is_valid_function_name("hello"));
    assert!(is_valid_function_name("Hello_World-42"));
    assert!(!is_valid_function_name(""));
    assert!(!is_valid_function_name("a/b"));
    assert!(!is_valid_function_name("a b"));
    assert!(!is_valid_function_name("caf\u{e9}"));
}

#[test]
fn cluster_objects_are_named_after_the_function() {
    assert_eq!(replica_set_name("hello"), "function-vanilla-hello");
    assert_eq!(service_name("hello"), "function-hello");
    assert_eq!(
        tracing_pod_name("function-vanilla-hello"),
        "function-tracing-function-vanilla-hello"
    );
}

#[test]
fn replica_set_gives_back_its_function() {
    assert_eq!(
        function_name_of_replica_set("function-vanilla-hello"),
        Some("hello".to_string())
    );
    assert_eq!(
        function_name_of_replica_set(&replica_set_name("a-b_c")),
        Some("a-b_c".to_string())
    );
}

#[test]
fn replica_set_with_empty_suffix_belongs_to_the_empty_name() {
    assert_eq!(function_name_of_replica_set("function-vanilla-"), Some(String::new()));
}

#[test]
fn other_replica_sets_belong_to_no_function() {
    assert_eq!(function_name_of_replica_set("dispatcher"), None);
    assert_eq!(function_name_of_replica_set("function-vanilla"), None);
    assert_eq!(function_name_of_replica_set("xfunction-vanilla-hello"), None);
    assert_eq!(function_name_of_replica_set("function-tracing-function-vanilla-hello"), None);
}

#[test]
fn replica_set_name_with_line_feed_belongs_to_no_function() {
    assert_eq!(function_name_of_replica_set("function-vanilla-a\nb"), None);
    assert_eq!(function_name_of_replica_set("function-vanilla-ab\n"), None);
}

#[test]
fn replica_set_name_may_hold_other_characters() {
    assert_eq!(
        function_name_of_replica_set("function-vanilla-a b\u{e9}\r"),
        Some("a b\u{e9}\r".to_string())
    );
}
