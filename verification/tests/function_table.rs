use containerless::error::ErrorKind;
use containerless::function_manager::{Command, Limits, Outcome, Route, State};
use containerless::function_table::{FunctionTable, Lookup, ReplicaSnapshot};
use containerless::names::{replica_set_name, tracing_pod_name};

fn limits() -> Limits {
    Limits { tracing_budget: 3, unknown_limit: 2, window: 5, rate_per_replica: 10, max_replicas: 4 }
}

fn table() -> FunctionTable {
    FunctionTable::new(Vec::new(), limits())
}

fn snapshot(name: &str, replicas: i32) -> ReplicaSnapshot {
    ReplicaSnapshot { name: name.to_string(), replicas, running: replicas, labels: Vec::new() }
}

fn create(table: &mut FunctionTable, name: &str) {
    assert_eq!(table.begin_get(name), Lookup::Probe);
    assert_eq!(table.finish_get(name, 200), Ok(()));
}

#[test]
fn new_table_holds_no_manager() {
    let table = table();
    assert!(!table.function_manager_exists("hello"));
    assert!(!table.upgrade_pending());
    assert_eq!(table.function("hello"), None);
}

#[test]
fn unknown_function_is_probed_once() {
    let mut table = table();
    assert_eq!(table.begin_get("hello"), Lookup::Probe);
    assert_eq!(table.begin_get("hello"), Lookup::Wait);
    assert_eq!(table.begin_get("hello"), Lookup::Wait);
    assert_eq!(table.begin_get("other"), Lookup::Probe);
    assert_eq!(table.finish_get("hello", 200), Ok(()));
    assert_eq!(table.begin_get("hello"), Lookup::Found);
    assert!(table.function_manager_exists("hello"));
    assert_eq!(table.function("hello").unwrap().state, State::New);
}

#[test]
fn function_that_storage_lacks_gets_no_manager() {
    let mut table = table();
    assert_eq!(table.begin_get("ghost"), Lookup::Probe);
    assert_eq!(table.finish_get("ghost", 404), Err(ErrorKind::NotFound));
    assert!(!table.function_manager_exists("ghost"));
    assert_eq!(table.begin_get("ghost"), Lookup::Probe);
    assert_eq!(table.finish_get("ghost", 503), Err(ErrorKind::ClusterUnavailable));
    assert_eq!(table.begin_get("ghost"), Lookup::Probe);
    assert_eq!(table.finish_get("ghost", 302), Err(ErrorKind::Unknown));
}

#[test]
fn probe_does_not_replace_a_manager() {
    let mut table = table();
    create(&mut table, "hello");
    assert_eq!(table.invoke("hello"), Some(Route::FirstReplica));
    assert_eq!(table.finish_get("hello", 200), Ok(()));
    assert_eq!(table.function("hello").unwrap().state, State::Vanilla);
}

#[test]
fn adoption_takes_the_replica_sets_of_functions() {
    let mut table = table();
    let replica_sets = vec![
        snapshot("function-vanilla-hello", 2),
        snapshot("dispatcher", 1),
        snapshot("function-vanilla-traced", 1),
        snapshot("function-vanilla-idle", 0),
    ];
    let pods = vec![
        "function-vanilla-hello-abcde".to_string(),
        "function-tracing-function-vanilla-traced".to_string(),
    ];
    table.adopt_running_functions(&replica_sets, &pods);
    assert!(table.function_manager_exists("hello"));
    assert!(table.function_manager_exists("traced"));
    assert!(table.function_manager_exists("idle"));
    assert!(!table.function_manager_exists("dispatcher"));
    let hello = table.function("hello").unwrap();
    assert_eq!(hello.state, State::Vanilla);
    assert_eq!(hello.replicas_vanilla, 2);
    assert_eq!(hello.replicas_tracing, 0);
    let traced = table.function("traced").unwrap();
    assert_eq!(traced.state, State::Tracing);
    assert_eq!(traced.replicas_tracing, 1);
    assert_eq!(table.function("idle").unwrap().state, State::New);
}

#[test]
fn adoption_links_the_native_trace() {
    let mut table = FunctionTable::new(vec!["hello".to_string()], limits());
    assert!(table.has_native_trace("hello"));
    assert!(!table.has_native_trace("other"));
    table.adopt_running_functions(
        &vec![snapshot("function-vanilla-hello", 1), snapshot("function-vanilla-other", 1)],
        &Vec::new(),
    );
    assert_eq!(table.function("hello").unwrap().state, State::Decontainerized);
    assert!(table.function("hello").unwrap().native_trace);
    assert_eq!(table.function("other").unwrap().state, State::Vanilla);
    assert_eq!(table.invoke("hello"), Some(Route::Native));
}

#[test]
fn later_replica_set_of_the_same_function_wins() {
    let mut table = table();
    table.adopt_running_functions(
        &vec![snapshot("function-vanilla-f", 1), snapshot("function-vanilla-f", 3)],
        &Vec::new(),
    );
    assert_eq!(table.function("f").unwrap().replicas_vanilla, 3);
}

#[test]
fn orphan_then_adopt_restores_the_managers() {
    let mut table = table();
    for name in ["a", "b-1", "c_2"] {
        create(&mut table, name);
        table.invoke(name);
    }
    let mut orphans = table.orphan();
    orphans.sort();
    assert_eq!(orphans, vec!["a".to_string(), "b-1".to_string(), "c_2".to_string()]);
    for name in ["a", "b-1", "c_2"] {
        assert!(!table.function_manager_exists(name));
    }
    let replica_sets: Vec<ReplicaSnapshot> =
        orphans.iter().map(|name| snapshot(&replica_set_name(name), 1)).collect();
    let mut restarted = FunctionTable::new(Vec::new(), limits());
    restarted.adopt_running_functions(&replica_sets, &Vec::new());
    let mut restored = restarted.orphan();
    restored.sort();
    assert_eq!(restored, orphans);
}

#[test]
fn tracing_pod_is_found_by_its_name() {
    let mut table = table();
    let replica_set = replica_set_name("f");
    let pods = vec![tracing_pod_name(&replica_set)];
    table.adopt_running_functions(&vec![snapshot(&replica_set, 1)], &pods);
    assert_eq!(table.function("f").unwrap().state, State::Tracing);
}

#[test]
fn shutdown_takes_the_manager_out() {
    let mut table = table();
    create(&mut table, "hello");
    table.invoke("hello");
    let function = table.shutdown("hello").unwrap();
    assert_eq!(function.replicas_vanilla, 1);
    assert!(!table.function_manager_exists("hello"));
    assert_eq!(table.shutdown("hello"), None);
    assert_eq!(table.invoke("hello"), None);
}

#[test]
fn commands_reach_the_manager_of_the_function() {
    let mut table = table();
    create(&mut table, "a");
    create(&mut table, "b");
    assert_eq!(table.apply("a", Command::Invoke), Some(Outcome::Route(Route::FirstReplica)));
    assert_eq!(table.apply("a", Command::StartTracing), Some(Outcome::Replica(true)));
    assert_eq!(table.function("a").unwrap().state, State::Tracing);
    assert_eq!(table.function("b").unwrap().state, State::New);
    assert_eq!(table.apply("nobody", Command::Invoke), None);
}

#[test]
fn upgrade_flag_is_kept() {
    let mut table = table();
    table.set_upgrade_pending(true);
    assert!(table.upgrade_pending());
    table.set_upgrade_pending(false);
    assert!(!table.upgrade_pending());
}
