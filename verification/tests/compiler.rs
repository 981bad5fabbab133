use containerless::compiler::{
    Action, CompileStatus, Compiler, DeploymentStatus, Event, Job, Message, Stage,
};

fn message(m: Message) -> Event {
    Event::Message(m)
}

fn create(compiler: &mut Compiler, name: &str, exclusive: bool) -> Vec<Action> {
    compiler.step(message(Message::CreateFunction { name: name.to_string(), exclusive }))
}

fn compile_to_rollout(compiler: &mut Compiler, name: &str) {
    let actions = compiler.step(message(Message::Compile { name: name.to_string() }));
    assert_eq!(actions, vec![Action::WriteTrace, Action::GenerateSource]);
    let actions = compiler.step(Event::Finished { ok: true });
    assert_eq!(actions, vec![Action::WriteDispatchTable, Action::Build]);
}

#[test]
fn new_compiler_is_idle_at_version_one() {
    let compiler = Compiler::new();
    assert_eq!(compiler.stage(), Stage::Idle);
    assert_eq!(compiler.version(), 1);
    assert!(!compiler.is_compiling_now());
    assert_eq!(compiler.ok_if_not_compiling(), 200);
    assert!(compiler.dispatch_table().is_empty());
}

#[test]
fn create_registers_a_vanilla_function() {
    let mut compiler = Compiler::new();
    assert_eq!(create(&mut compiler, "hello", false), vec![Action::SignalDone]);
    assert!(compiler.is_known("hello"));
    assert_eq!(compiler.compile_status("hello"), CompileStatus::Vanilla);
    assert_eq!(compiler.dispatch_table(), vec!["hello".to_string()]);
    assert_eq!(compiler.stage(), Stage::Idle);
}

#[test]
fn double_create_marks_the_function_as_failed() {
    let mut compiler = Compiler::new();
    assert_eq!(create(&mut compiler, "x", false), vec![Action::SignalDone]);
    assert_eq!(create(&mut compiler, "x", false), Vec::<Action>::new());
    assert_eq!(compiler.compile_status("x"), CompileStatus::Error);
    assert!(compiler.dispatch_table().is_empty());
    // A reset clears the entry, and the function can be created again.
    let actions = compiler.step(message(Message::ResetFunction { name: "x".to_string() }));
    assert_eq!(actions, Vec::<Action>::new());
    assert!(!compiler.is_known("x"));
    assert_eq!(compiler.compile_status("x"), CompileStatus::Vanilla);
    assert_eq!(create(&mut compiler, "x", false), vec![Action::SignalDone]);
}

#[test]
fn exclusive_create_clears_the_other_functions() {
    let mut compiler = Compiler::new();
    create(&mut compiler, "a", false);
    create(&mut compiler, "b", false);
    assert_eq!(create(&mut compiler, "c", true), vec![Action::SignalDone]);
    assert!(!compiler.is_known("a"));
    assert!(!compiler.is_known("b"));
    assert_eq!(compiler.dispatch_table(), vec!["c".to_string()]);
}

#[test]
fn compile_builds_patches_and_waits_for_the_rollout() {
    let mut compiler = Compiler::new();
    create(&mut compiler, "hello", false);
    compile_to_rollout(&mut compiler, "hello");
    assert_eq!(compiler.compile_status("hello"), CompileStatus::Compiling);
    assert_eq!(compiler.stage(), Stage::Building { job: Job::Compile });
    assert!(compiler.is_compiling_now());
    assert_eq!(compiler.ok_if_not_compiling(), 503);
    assert_eq!(compiler.current(), "hello");
    let actions = compiler.step(Event::Finished { ok: true });
    assert_eq!(
        actions,
        vec![Action::PatchDeployment { version: 2 }, Action::ListPods { version: 2 }]
    );
    assert!(!compiler.is_compiling_now());
    assert_eq!(compiler.version(), 2);
    assert_eq!(compiler.compile_status("hello"), CompileStatus::Compiled);
    let actions = compiler.step(Event::Pods { running: Some(0) });
    assert_eq!(actions, vec![Action::Sleep, Action::ListPods { version: 2 }]);
    let actions = compiler.step(Event::Pods { running: Some(1) });
    assert_eq!(actions, Vec::<Action>::new());
    assert_eq!(compiler.stage(), Stage::Idle);
    assert_eq!(compiler.compile_status("hello"), CompileStatus::Compiled);
    assert_eq!(compiler.dispatch_table(), vec!["hello".to_string()]);
}

#[test]
fn failed_source_generation_marks_the_function_as_failed() {
    let mut compiler = Compiler::new();
    create(&mut compiler, "bad", false);
    create(&mut compiler, "good", false);
    compiler.step(message(Message::Compile { name: "bad".to_string() }));
    let actions = compiler.step(Event::Finished { ok: false });
    assert_eq!(actions, vec![Action::WriteDispatchTable]);
    assert_eq!(compiler.compile_status("bad"), CompileStatus::Error);
    assert_eq!(compiler.compile_status("good"), CompileStatus::Vanilla);
    assert_eq!(compiler.dispatch_table(), vec!["good".to_string()]);
    assert_eq!(compiler.version(), 1);
    assert_eq!(compiler.stage(), Stage::Idle);
}

#[test]
fn failed_build_marks_the_function_as_failed_and_patches_nothing() {
    let mut compiler = Compiler::new();
    create(&mut compiler, "bad", false);
    compile_to_rollout(&mut compiler, "bad");
    let actions = compiler.step(Event::Finished { ok: false });
    assert_eq!(actions, vec![Action::WriteDispatchTable]);
    assert_eq!(compiler.compile_status("bad"), CompileStatus::Error);
    assert_eq!(compiler.version(), 1);
    assert!(!compiler.is_compiling_now());
    assert!(compiler.dispatch_table().is_empty());
}

#[test]
fn rollout_gives_up_after_sixty_lists() {
    let mut compiler = Compiler::new();
    create(&mut compiler, "slow", false);
    compile_to_rollout(&mut compiler, "slow");
    compiler.step(Event::Finished { ok: true });
    for _ in 0..59 {
        let actions = compiler.step(Event::Pods { running: Some(0) });
        assert_eq!(actions, vec![Action::Sleep, Action::ListPods { version: 2 }]);
    }
    let actions = compiler.step(Event::Pods { running: Some(2) });
    assert_eq!(actions, vec![Action::WriteDispatchTable]);
    assert_eq!(compiler.stage(), Stage::Idle);
    assert_eq!(compiler.compile_status("slow"), CompileStatus::Error);
    assert_eq!(compiler.version(), 2);
}

#[test]
fn rollout_fails_at_once_when_the_cluster_gives_no_list() {
    let mut compiler = Compiler::new();
    compile_to_rollout(&mut compiler, "f");
    compiler.step(Event::Finished { ok: true });
    let actions = compiler.step(Event::Pods { running: None });
    assert_eq!(actions, vec![Action::WriteDispatchTable]);
    assert_eq!(compiler.compile_status("f"), CompileStatus::Error);
}

#[test]
fn reset_of_a_compiled_function_rebuilds_and_redeploys() {
    let mut compiler = Compiler::new();
    create(&mut compiler, "hello", false);
    compile_to_rollout(&mut compiler, "hello");
    compiler.step(Event::Finished { ok: true });
    compiler.step(Event::Pods { running: Some(1) });
    let actions = compiler.step(message(Message::ResetFunction { name: "hello".to_string() }));
    assert_eq!(actions, vec![Action::RemoveTraceFiles]);
    assert_eq!(compiler.stage(), Stage::Removing);
    let actions = compiler.step(Event::Finished { ok: true });
    assert_eq!(
        actions,
        vec![Action::WriteDispatchTable, Action::SignalStartedCompiling, Action::Build]
    );
    assert!(compiler.dispatch_table().is_empty());
    let actions = compiler.step(Event::Finished { ok: true });
    assert_eq!(
        actions,
        vec![Action::PatchDeployment { version: 3 }, Action::ListPods { version: 3 }]
    );
    let actions = compiler.step(Event::Pods { running: Some(1) });
    assert_eq!(actions, vec![Action::SignalDeployed]);
    assert_eq!(compiler.compile_status("hello"), CompileStatus::Vanilla);
    assert!(!compiler.is_known("hello"));
    assert_eq!(compiler.stage(), Stage::Idle);
}

#[test]
fn reset_of_a_vanilla_or_unknown_function_signals_at_once() {
    let mut compiler = Compiler::new();
    create(&mut compiler, "v", false);
    for name in ["v", "nobody"] {
        let actions = compiler.step(message(Message::ResetFunction { name: name.to_string() }));
        assert_eq!(actions, vec![Action::SignalStartedCompiling, Action::SignalDeployed]);
        assert!(!compiler.is_known(name));
    }
}

#[test]
fn reset_that_cannot_remove_the_files_fails_the_function() {
    let mut compiler = Compiler::new();
    compile_to_rollout(&mut compiler, "f");
    compiler.step(Event::Finished { ok: true });
    compiler.step(Event::Pods { running: Some(1) });
    compiler.step(message(Message::ResetFunction { name: "f".to_string() }));
    let actions = compiler.step(Event::Finished { ok: false });
    assert_eq!(actions, Vec::<Action>::new());
    assert_eq!(compiler.compile_status("f"), CompileStatus::Error);
    assert_eq!(compiler.stage(), Stage::Idle);
}

#[test]
fn recompile_bumps_the_version_only_after_a_good_build() {
    let mut compiler = Compiler::new();
    let actions = compiler.step(message(Message::RecompileDispatcher));
    assert_eq!(actions, vec![Action::SignalStartedCompiling, Action::Build]);
    assert_eq!(compiler.step(Event::Finished { ok: false }), Vec::<Action>::new());
    assert_eq!(compiler.version(), 1);
    compiler.step(message(Message::RecompileDispatcher));
    let actions = compiler.step(Event::Finished { ok: true });
    assert_eq!(
        actions,
        vec![
            Action::DeleteDynamicResources { all: false },
            Action::PatchDeployment { version: 2 }
        ]
    );
    assert_eq!(compiler.version(), 2);
    assert_eq!(compiler.stage(), Stage::Idle);
}

#[test]
fn reset_dispatcher_forgets_every_function() {
    let mut compiler = Compiler::new();
    create(&mut compiler, "a", false);
    let actions = compiler.step(message(Message::ResetDispatcher));
    assert_eq!(
        actions,
        vec![Action::WriteDispatchTable, Action::SignalStartedCompiling, Action::Build]
    );
    assert!(!compiler.is_known("a"));
    assert!(compiler.dispatch_table().is_empty());
}

#[test]
fn events_that_are_not_awaited_change_nothing() {
    let mut compiler = Compiler::new();
    assert!(!compiler.accepts(&Event::Finished { ok: true }));
    assert_eq!(compiler.step(Event::Finished { ok: true }), Vec::<Action>::new());
    compiler.step(message(Message::RecompileDispatcher));
    let second = message(Message::RecompileDispatcher);
    assert!(!compiler.accepts(&second));
    assert_eq!(compiler.step(second), Vec::<Action>::new());
    assert_eq!(compiler.stage(), Stage::Building { job: Job::Recompile });
    assert!(compiler.is_compiling_now());
}

#[test]
fn dispatcher_version_is_the_observed_generation_once_one_replica_runs() {
    let mut compiler = Compiler::new();
    let actions = compiler.step(message(Message::GetDispatcherVersion));
    assert_eq!(actions, vec![Action::Sleep, Action::GetStatus]);
    let waiting = DeploymentStatus { replicas: 2, observed_generation: 6 };
    let actions = compiler.step(Event::Status { status: Some(waiting) });
    assert_eq!(actions, vec![Action::Sleep, Action::GetStatus]);
    let ready = DeploymentStatus { replicas: 1, observed_generation: 7 };
    let actions = compiler.step(Event::Status { status: Some(ready) });
    assert_eq!(actions, vec![Action::ReplyVersion { version: 7 }]);
    assert_eq!(compiler.stage(), Stage::Idle);
}

#[test]
fn dispatcher_version_gives_up_after_sixty_answers_or_on_failure() {
    let mut compiler = Compiler::new();
    compiler.step(message(Message::GetDispatcherVersion));
    let waiting = DeploymentStatus { replicas: 0, observed_generation: 1 };
    for _ in 0..59 {
        let actions = compiler.step(Event::Status { status: Some(waiting) });
        assert_eq!(actions, vec![Action::Sleep, Action::GetStatus]);
    }
    assert_eq!(compiler.step(Event::Status { status: Some(waiting) }), Vec::<Action>::new());
    assert_eq!(compiler.stage(), Stage::Idle);
    compiler.step(message(Message::GetDispatcherVersion));
    assert_eq!(compiler.step(Event::Status { status: None }), Vec::<Action>::new());
    assert_eq!(compiler.stage(), Stage::Idle);
}

#[test]
fn shutdown_stops_the_actor() {
    let mut compiler = Compiler::new();
    let actions = compiler.step(message(Message::Shutdown));
    assert_eq!(
        actions,
        vec![Action::DeleteDynamicResources { all: true }, Action::SignalDone, Action::Stop]
    );
    assert_eq!(compiler.stage(), Stage::Stopped);
    assert_eq!(compiler.step(message(Message::RecompileDispatcher)), Vec::<Action>::new());
}

#[test]
fn patched_versions_rise() {
    let mut compiler = Compiler::new();
    let mut versions: Vec<usize> = Vec::new();
    for round in 0..5 {
        compiler.step(message(Message::RecompileDispatcher));
        for action in compiler.step(Event::Finished { ok: round != 2 }) {
            if let Action::PatchDeployment { version } = action {
                versions.push(version);
            }
        }
    }
    assert_eq!(versions, vec![2, 3, 4, 5]);
}
