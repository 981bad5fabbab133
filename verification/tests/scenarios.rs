use containerless::compiler::{
    create_function_status, reset_function_status, Action, CompileStatus, Compiler, Event, Message,
    Stage,
};
use containerless::dispatcher::{route_request, Target};
use containerless::error::ErrorKind;
use containerless::function_manager::{Command, Limits, Outcome, Route, State};
use containerless::function_table::{FunctionTable, Lookup, ReplicaSnapshot};
use containerless::names::replica_set_name;

fn limits() -> Limits {
    Limits { tracing_budget: 5, unknown_limit: 3, window: 5, rate_per_replica: 10, max_replicas: 4 }
}

fn name_of(path: &str) -> String {
    match route_request(true, path) {
        Target::Function { name, path } => {
            assert_eq!(path, "/x");
            name
        }
        _ => panic!("the path leads to no function"),
    }
}

fn create(compiler: &mut Compiler, table: &mut FunctionTable, name: &str) {
    let actions = compiler
        .step(Event::Message(Message::CreateFunction { name: name.to_string(), exclusive: false }));
    assert_eq!(create_function_status(actions.contains(&Action::SignalDone)), 200);
    assert_eq!(table.begin_get(name), Lookup::Probe);
    assert_eq!(table.finish_get(name, 200), Ok(()));
}

fn trace_and_promote(compiler: &mut Compiler, table: &mut FunctionTable, name: &str) {
    assert_eq!(table.apply(name, Command::StartTracing), Some(Outcome::Replica(true)));
    assert_eq!(table.function(name).unwrap().replicas_tracing, 1);
    let mut traced = 0;
    for _ in 0..100 {
        match table.invoke(name).unwrap() {
            Route::Tracing => {
                traced += 1;
                table.apply(name, Command::TracedRequestEnded);
            }
            Route::Vanilla { .. } => {}
            other => panic!("unexpected route {:?}", other),
        }
    }
    assert_eq!(traced, 5);
    assert_eq!(
        table.apply(name, Command::TraceCaptured { trace_len: 64 }),
        Some(Outcome::Replica(true))
    );
    assert_eq!(table.function(name).unwrap().state, State::AwaitingCompile);
    compiler.step(Event::Message(Message::Compile { name: name.to_string() }));
    compiler.step(Event::Finished { ok: true });
    assert_eq!(table.invoke(name), Some(Route::Vanilla { replica: 0 }));
    compiler.step(Event::Finished { ok: true });
    compiler.step(Event::Pods { running: Some(1) });
    assert_eq!(compiler.compile_status(name), CompileStatus::Compiled);
    table.apply(name, Command::CompileReported { ok: true });
}

#[test]
fn cold_start() {
    let mut compiler = Compiler::new();
    let mut table = FunctionTable::new(Vec::new(), limits());
    create(&mut compiler, &mut table, "hello");
    let name = name_of("/hello/x");
    assert_eq!(table.begin_get(&name), Lookup::Found);
    assert_eq!(table.invoke(&name), Some(Route::FirstReplica));
    assert_eq!(table.function(&name).unwrap().replicas_vanilla, 1);
    assert_eq!(table.function(&name).unwrap().state, State::Vanilla);
}

#[test]
fn tracing_and_promotion() {
    let mut compiler = Compiler::new();
    let mut table = FunctionTable::new(Vec::new(), limits());
    create(&mut compiler, &mut table, "hello");
    table.invoke("hello");
    trace_and_promote(&mut compiler, &mut table, "hello");
    let function = table.function("hello").unwrap();
    assert_eq!(function.state, State::Decontainerized);
    assert!(function.native_trace);
    assert_eq!(function.compile_status, CompileStatus::Compiled);
    assert_eq!(table.invoke("hello"), Some(Route::Native));
    let mut patched = None;
    for _ in 0..30 {
        if let Some(Outcome::Scale(Some(count))) = table.apply("hello", Command::Tick { completed: 0 }) {
            patched = Some(count);
        }
    }
    assert_eq!(patched, Some(0));
    assert_eq!(table.function("hello").unwrap().replicas_vanilla, 0);
}

#[test]
fn reset_after_bad_trace() {
    let mut compiler = Compiler::new();
    let mut table = FunctionTable::new(Vec::new(), limits());
    create(&mut compiler, &mut table, "hello");
    table.invoke("hello");
    trace_and_promote(&mut compiler, &mut table, "hello");
    let mut signals: Vec<Action> = Vec::new();
    signals.extend(compiler.step(Event::Message(Message::ResetFunction { name: "hello".to_string() })));
    assert_eq!(signals, vec![Action::RemoveTraceFiles]);
    signals.extend(compiler.step(Event::Finished { ok: true }));
    signals.extend(compiler.step(Event::Finished { ok: true }));
    signals.extend(compiler.step(Event::Pods { running: Some(1) }));
    assert_eq!(
        reset_function_status(
            signals.contains(&Action::SignalStartedCompiling),
            signals.contains(&Action::SignalDeployed)
        ),
        200
    );
    assert_eq!(compiler.compile_status("hello"), CompileStatus::Vanilla);
    assert!(compiler.dispatch_table().is_empty());
    assert_eq!(compiler.stage(), Stage::Idle);
    table.apply("hello", Command::Reset);
    assert_eq!(table.function("hello").unwrap().compile_status, CompileStatus::Vanilla);
    assert!(matches!(table.invoke("hello"), Some(Route::Vanilla { .. })));
}

#[test]
fn rollout_failure() {
    let mut compiler = Compiler::new();
    let mut table = FunctionTable::new(Vec::new(), limits());
    create(&mut compiler, &mut table, "bad");
    create(&mut compiler, &mut table, "good");
    table.invoke("bad");
    table.invoke("good");
    table.apply("bad", Command::StartTracing);
    table.apply("bad", Command::TraceCaptured { trace_len: 8 });
    compiler.step(Event::Message(Message::Compile { name: "bad".to_string() }));
    compiler.step(Event::Finished { ok: true });
    let actions = compiler.step(Event::Finished { ok: false });
    assert_eq!(actions, vec![Action::WriteDispatchTable]);
    assert_eq!(compiler.compile_status("bad"), CompileStatus::Error);
    assert_eq!(compiler.compile_status("good"), CompileStatus::Vanilla);
    assert_eq!(compiler.version(), 1);
    assert_eq!(compiler.dispatch_table(), vec!["good".to_string()]);
    assert!(ErrorKind::CompilationFailed.moves_to_error_state());
    table.apply("bad", Command::CompileReported { ok: false });
    assert_eq!(table.function("bad").unwrap().state, State::Error);
    assert_eq!(table.function("bad").unwrap().compile_status, CompileStatus::Error);
    assert_eq!(table.invoke("good"), Some(Route::Vanilla { replica: 0 }));
}

#[test]
fn rollout_failure_reset_serves_again() {
    let mut table = FunctionTable::new(Vec::new(), limits());
    assert_eq!(table.begin_get("bad"), Lookup::Probe);
    assert_eq!(table.finish_get("bad", 200), Ok(()));
    table.invoke("bad");
    table.apply("bad", Command::StartTracing);
    table.apply("bad", Command::TraceCaptured { trace_len: 8 });
    table.apply("bad", Command::CompileReported { ok: false });
    assert_eq!(table.invoke("bad"), Some(Route::Refused));
    assert!(table.shutdown("bad").is_some());
    assert_eq!(table.begin_get("bad"), Lookup::Probe);
    assert_eq!(table.finish_get("bad", 200), Ok(()));
    assert_eq!(table.invoke("bad"), Some(Route::FirstReplica));
}

#[test]
fn graceful_orphan() {
    let mut table = FunctionTable::new(Vec::new(), limits());
    for name in ["one", "two"] {
        assert_eq!(table.begin_get(name), Lookup::Probe);
        assert_eq!(table.finish_get(name, 200), Ok(()));
        assert_eq!(table.invoke(name), Some(Route::FirstReplica));
    }
    let mut orphans = table.orphan();
    orphans.sort();
    assert_eq!(orphans, vec!["one".to_string(), "two".to_string()]);
    let replica_sets: Vec<ReplicaSnapshot> = orphans
        .iter()
        .map(|name| ReplicaSnapshot {
            name: replica_set_name(name),
            replicas: 1,
            running: 1,
            labels: vec![("app".to_string(), name.clone())],
        })
        .collect();
    let mut restarted = FunctionTable::new(Vec::new(), limits());
    restarted.adopt_running_functions(&replica_sets, &Vec::new());
    for name in ["one", "two"] {
        assert!(restarted.function_manager_exists(name));
        assert_eq!(restarted.function(name).unwrap().state, State::Vanilla);
        assert_eq!(restarted.invoke(name), Some(Route::Vanilla { replica: 0 }));
    }
}

#[test]
fn double_create() {
    let mut compiler = Compiler::new();
    let first = compiler
        .step(Event::Message(Message::CreateFunction { name: "x".to_string(), exclusive: false }));
    let second = compiler
        .step(Event::Message(Message::CreateFunction { name: "x".to_string(), exclusive: false }));
    assert_eq!(create_function_status(first.contains(&Action::SignalDone)), 200);
    let status = create_function_status(second.contains(&Action::SignalDone));
    assert_eq!(status, 409);
    assert_eq!(ErrorKind::Conflict.status_code(), Some(status));
    assert_eq!(compiler.compile_status("x"), CompileStatus::Error);
    compiler.step(Event::Message(Message::ResetFunction { name: "x".to_string() }));
    assert_eq!(compiler.compile_status("x"), CompileStatus::Vanilla);
}

#[test]
fn reset_function_reports_failure_unless_both_signals_came() {
    assert_eq!(reset_function_status(true, true), 200);
    assert_eq!(reset_function_status(true, false), 500);
    assert_eq!(reset_function_status(false, true), 500);
    assert_eq!(reset_function_status(false, false), 500);
}
