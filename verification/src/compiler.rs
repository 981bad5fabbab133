//! The compiler actor: the one task that builds the dispatcher and rolls it
//! out.
//!
//! The actor is written as a state machine. [`Compiler::step`] takes what
//! happened (a message arrived, a piece of outside work ended) and returns
//! the outside work to do next, in order. The caller does that work and hands
//! back the outcome of the last piece that reports one. All that the actor
//! decides is decided here; [`transition`] is its specification.
use crate::name_map::NameMap;
use vstd::prelude::*;

verus! {

/// What is known of the trace of one function.
#[derive(PartialEq, Eq, Structural, Clone, Copy, Debug)]
pub enum CompileStatus {
    /// Registered, served from containers, no trace built.
    Vanilla,
    /// A trace is being built into the dispatcher.
    Compiling,
    /// The trace is built into the dispatcher.
    Compiled,
    /// Building or rolling out failed, or the function was created twice.
    Error,
}

/// A request to the actor.
#[derive(Debug)]
pub enum Message {
    Compile { name: String },
    Shutdown,
    RecompileDispatcher,
    ResetDispatcher,
    CreateFunction { name: String, exclusive: bool },
    ResetFunction { name: String },
    GetDispatcherVersion,
}

/// A request to the actor, by the characters of its names.
pub enum MessageView {
    Compile { name: Seq<char> },
    Shutdown,
    RecompileDispatcher,
    ResetDispatcher,
    CreateFunction { name: Seq<char>, exclusive: bool },
    ResetFunction { name: Seq<char> },
    GetDispatcherVersion,
}

impl View for Message {
    type V = MessageView;

    open spec fn view(&self) -> MessageView {
        match *self {
            Message::Compile { name } => MessageView::Compile { name: name@ },
            Message::Shutdown => MessageView::Shutdown,
            Message::RecompileDispatcher => MessageView::RecompileDispatcher,
            Message::ResetDispatcher => MessageView::ResetDispatcher,
            Message::CreateFunction { name, exclusive } => MessageView::CreateFunction {
                name: name@,
                exclusive,
            },
            Message::ResetFunction { name } => MessageView::ResetFunction { name: name@ },
            Message::GetDispatcherVersion => MessageView::GetDispatcherVersion,
        }
    }
}

/// What the cluster reports of the dispatcher deployment.
#[derive(PartialEq, Eq, Structural, Clone, Copy, Debug)]
pub struct DeploymentStatus {
    pub replicas: i32,
    pub observed_generation: usize,
}

/// What the actor is told.
#[derive(Debug)]
pub enum Event {
    /// The next message of the queue.
    Message(Message),
    /// `GenerateSource`, `RemoveTraceFiles` or `Build` ended, well or not.
    Finished { ok: bool },
    /// The answer to `ListPods`: how many pods of the version are running,
    /// or `None` where the cluster gave no list.
    Pods { running: Option<usize> },
    /// The answer to `GetStatus`, or `None` where the cluster gave none.
    Status { status: Option<DeploymentStatus> },
}

/// What the actor is told, by the characters of its names.
pub enum EventView {
    Message(MessageView),
    Finished { ok: bool },
    Pods { running: Option<usize> },
    Status { status: Option<DeploymentStatus> },
}

impl View for Event {
    type V = EventView;

    open spec fn view(&self) -> EventView {
        match *self {
            Event::Message(message) => EventView::Message(message@),
            Event::Finished { ok } => EventView::Finished { ok },
            Event::Pods { running } => EventView::Pods { running },
            Event::Status { status } => EventView::Status { status },
        }
    }
}

/// One piece of outside work. Where it speaks of "the function", that is the
/// one the actor is working on, [`Compiler::current`].
#[derive(PartialEq, Eq, Structural, Clone, Copy, Debug)]
pub enum Action {
    /// Write the trace that came with the message to the trace file of the
    /// function.
    WriteTrace,
    /// Turn the trace file of the function into source. Reports `Finished`.
    GenerateSource,
    /// Remove the trace file and the generated source of the function.
    /// Reports `Finished`.
    RemoveTraceFiles,
    /// Write the dispatch table of [`Compiler::dispatch_table`].
    WriteDispatchTable,
    /// Build the dispatcher. Reports `Finished`.
    Build,
    /// Tell the sender that the build is about to start.
    SignalStartedCompiling,
    /// Tell the sender that the new dispatcher serves.
    SignalDeployed,
    /// Tell the sender that the message is dealt with.
    SignalDone,
    /// Delete what the dispatcher created in the cluster; with `all`, what
    /// the controller created too.
    DeleteDynamicResources { all: bool },
    /// Patch the dispatcher deployment to `version`.
    PatchDeployment { version: usize },
    /// Wait one second.
    Sleep,
    /// List the running dispatcher pods labelled `version`. Reports `Pods`.
    ListPods { version: usize },
    /// Fetch the status of the dispatcher deployment. Reports `Status`.
    GetStatus,
    /// Answer the sender with the dispatcher version.
    ReplyVersion { version: usize },
    /// End the task.
    Stop,
}

/// For whom the dispatcher is being built.
#[derive(PartialEq, Eq, Structural, Clone, Copy, Debug)]
pub enum Job {
    Recompile,
    ResetDispatcher,
    ResetFunction,
    Compile,
}

/// Where the actor stands.
#[derive(PartialEq, Eq, Structural, Clone, Copy, Debug)]
pub enum Stage {
    /// Between two messages.
    Idle,
    /// Waiting for `GenerateSource`.
    Generating,
    /// Waiting for `RemoveTraceFiles`.
    Removing,
    /// Waiting for `Build`.
    Building { job: Job },
    /// Waiting for `ListPods`, after `polls` lists that did not show the pod.
    Rollout { job: Job, polls: u32 },
    /// Waiting for `GetStatus`, after `polls` answers without the replica.
    Polling { polls: u32 },
    /// The task has ended.
    Stopped,
}

/// How often the pods or the status are asked for, one second apart, before
/// the actor gives up.
pub const MAX_POLLS: u32 = 60;

/// The state of the actor as contracts see it.
#[verifier::ext_equal]
pub struct CompilerState {
    pub known_functions: Map<Seq<char>, CompileStatus>,
    pub next_version: usize,
    pub is_compiling_now: bool,
    pub stage: Stage,
    pub current: Seq<char>,
}

impl CompilerState {
    /// The state in which the actor starts.
    pub open spec fn init() -> CompilerState {
        CompilerState {
            known_functions: Map::empty(),
            next_version: 1,
            is_compiling_now: false,
            stage: Stage::Idle,
            current: Seq::empty(),
        }
    }

    /// What holds of every state that the actor reaches: the build flag is
    /// up exactly while a build runs, and a poll count is below its bound.
    pub open spec fn wf(self) -> bool {
        &&& self.is_compiling_now <==> self.stage is Building
        &&& self.next_version >= 1
        &&& self.stage matches Stage::Rollout { polls, .. } ==> polls < MAX_POLLS
        &&& self.stage matches Stage::Polling { polls } ==> polls < MAX_POLLS
    }

    /// Whether `event` is what the actor waits for.
    pub open spec fn accepts(self, event: EventView) -> bool {
        match self.stage {
            Stage::Idle => event is Message,
            Stage::Generating | Stage::Removing | Stage::Building { .. } => event is Finished,
            Stage::Rollout { .. } => event is Pods,
            Stage::Polling { .. } => event is Status,
            Stage::Stopped => false,
        }
    }

    /// The status of `name`. A function that the actor holds nothing on has
    /// no trace: it is `Vanilla`.
    pub open spec fn status_of(self, name: Seq<char>) -> CompileStatus {
        if self.known_functions.contains_key(name) {
            self.known_functions[name]
        } else {
            CompileStatus::Vanilla
        }
    }

    /// Whether the dispatch table lists `name`: the actor knows it, and not
    /// as failed.
    pub open spec fn lists(self, name: Seq<char>) -> bool {
        self.known_functions.contains_key(name) && self.known_functions[name]
            != CompileStatus::Error
    }

    pub open spec fn with_status(self, status: CompileStatus) -> CompilerState {
        CompilerState {
            known_functions: self.known_functions.insert(self.current, status),
            ..self
        }
    }

    pub open spec fn at(self, stage: Stage) -> CompilerState {
        CompilerState { stage, ..self }
    }

    pub open spec fn building(self, job: Job) -> CompilerState {
        CompilerState { is_compiling_now: true, stage: Stage::Building { job }, ..self }
    }

    /// The version that the next patch carries.
    pub open spec fn upcoming(self) -> usize {
        (self.next_version + 1) as usize
    }

    pub open spec fn built(self, stage: Stage) -> CompilerState {
        CompilerState {
            is_compiling_now: false,
            next_version: self.upcoming(),
            stage,
            ..self
        }
    }

    pub open spec fn build_failed(self) -> CompilerState {
        CompilerState { is_compiling_now: false, stage: Stage::Idle, ..self }
    }
}

/// What a message does to an idle actor.
pub open spec fn on_message(s: CompilerState, message: MessageView) -> (CompilerState, Seq<Action>) {
    match message {
        MessageView::RecompileDispatcher => (
            s.building(Job::Recompile),
            seq![Action::SignalStartedCompiling, Action::Build],
        ),
        MessageView::ResetDispatcher => (
            CompilerState { known_functions: Map::empty(), ..s }.building(Job::ResetDispatcher),
            seq![Action::WriteDispatchTable, Action::SignalStartedCompiling, Action::Build],
        ),
        MessageView::CreateFunction { name, exclusive } => if s.known_functions.contains_key(name) {
            (
                CompilerState {
                    known_functions: s.known_functions.insert(name, CompileStatus::Error),
                    ..s
                },
                Seq::empty(),
            )
        } else {
            let others = if exclusive {
                Map::empty()
            } else {
                s.known_functions
            };
            (
                CompilerState {
                    known_functions: others.insert(name, CompileStatus::Vanilla),
                    ..s
                },
                seq![Action::SignalDone],
            )
        },
        MessageView::ResetFunction { name } => {
            let removed = CompilerState { known_functions: s.known_functions.remove(name), ..s };
            if !s.known_functions.contains_key(name) || s.known_functions[name]
                == CompileStatus::Vanilla {
                (removed, seq![Action::SignalStartedCompiling, Action::SignalDeployed])
            } else if s.known_functions[name] == CompileStatus::Compiled {
                (
                    CompilerState { current: name, stage: Stage::Removing, ..removed },
                    seq![Action::RemoveTraceFiles],
                )
            } else {
                (removed, Seq::empty())
            }
        },
        MessageView::Compile { name } => (
            CompilerState { current: name, stage: Stage::Generating, ..s },
            seq![Action::WriteTrace, Action::GenerateSource],
        ),
        MessageView::Shutdown => (
            s.at(Stage::Stopped),
            seq![Action::DeleteDynamicResources { all: true }, Action::SignalDone, Action::Stop],
        ),
        MessageView::GetDispatcherVersion => (
            s.at(Stage::Polling { polls: 0 }),
            seq![Action::Sleep, Action::GetStatus],
        ),
    }
}

/// What the end of a piece of work does to the actor that waited for it.
pub open spec fn on_finished(s: CompilerState, ok: bool) -> (CompilerState, Seq<Action>) {
    match s.stage {
        Stage::Generating => if ok {
            (
                s.with_status(CompileStatus::Compiling).building(Job::Compile),
                seq![Action::WriteDispatchTable, Action::Build],
            )
        } else {
            (
                s.with_status(CompileStatus::Error).at(Stage::Idle),
                seq![Action::WriteDispatchTable],
            )
        },
        Stage::Removing => if ok {
            (
                s.building(Job::ResetFunction),
                seq![Action::WriteDispatchTable, Action::SignalStartedCompiling, Action::Build],
            )
        } else {
            (s.with_status(CompileStatus::Error).at(Stage::Idle), Seq::empty())
        },
        Stage::Building { job } => match job {
            Job::Recompile | Job::ResetDispatcher => if ok {
                (
                    s.built(Stage::Idle),
                    seq![
                        Action::DeleteDynamicResources { all: false },
                        Action::PatchDeployment { version: s.upcoming() },
                    ],
                )
            } else {
                (s.build_failed(), Seq::empty())
            },
            Job::ResetFunction => if ok {
                (
                    s.built(Stage::Rollout { job, polls: 0 }),
                    seq![
                        Action::PatchDeployment { version: s.upcoming() },
                        Action::ListPods { version: s.upcoming() },
                    ],
                )
            } else {
                (
                    s.with_status(CompileStatus::Error).build_failed(),
                    seq![Action::WriteDispatchTable],
                )
            },
            Job::Compile => if ok {
                (
                    s.with_status(CompileStatus::Compiled).built(Stage::Rollout { job, polls: 0 }),
                    seq![
                        Action::PatchDeployment { version: s.upcoming() },
                        Action::ListPods { version: s.upcoming() },
                    ],
                )
            } else {
                (
                    s.with_status(CompileStatus::Error).build_failed(),
                    seq![Action::WriteDispatchTable],
                )
            },
        },
        _ => (s, Seq::empty()),
    }
}

/// What a list of the running pods of the new version does to the actor that
/// rolls the version out. One running pod ends the wait. No list, or the last
/// of `MAX_POLLS` lists without that pod, fails the function.
pub open spec fn on_pods(s: CompilerState, running: Option<usize>) -> (CompilerState, Seq<Action>) {
    match s.stage {
        Stage::Rollout { job, polls } => if running == Some(1usize) {
            (
                s.at(Stage::Idle),
                if job == Job::ResetFunction {
                    seq![Action::SignalDeployed]
                } else {
                    Seq::empty()
                },
            )
        } else if running is Some && polls + 1 < MAX_POLLS {
            (
                s.at(Stage::Rollout { job, polls: (polls + 1) as u32 }),
                seq![Action::Sleep, Action::ListPods { version: s.next_version }],
            )
        } else {
            (
                s.with_status(CompileStatus::Error).at(Stage::Idle),
                if job == Job::Compile {
                    seq![Action::WriteDispatchTable]
                } else {
                    Seq::empty()
                },
            )
        },
        _ => (s, Seq::empty()),
    }
}

/// What the status of the dispatcher deployment does to the actor that was
/// asked for the version. With one replica the observed generation is the
/// answer. No status, or the last of `MAX_POLLS` without that replica, ends
/// the wait without an answer.
pub open spec fn on_status(s: CompilerState, status: Option<DeploymentStatus>) -> (
    CompilerState,
    Seq<Action>,
) {
    match s.stage {
        Stage::Polling { polls } => match status {
            Some(status) => if status.replicas == 1 {
                (
                    s.at(Stage::Idle),
                    seq![Action::ReplyVersion { version: status.observed_generation }],
                )
            } else if polls + 1 < MAX_POLLS {
                (
                    s.at(Stage::Polling { polls: (polls + 1) as u32 }),
                    seq![Action::Sleep, Action::GetStatus],
                )
            } else {
                (s.at(Stage::Idle), Seq::empty())
            },
            None => (s.at(Stage::Idle), Seq::empty()),
        },
        _ => (s, Seq::empty()),
    }
}

/// The state after `event`, and the work that the actor orders. An event that
/// the actor does not wait for changes nothing and orders nothing.
pub open spec fn transition(s: CompilerState, event: EventView) -> (CompilerState, Seq<Action>) {
    if !s.accepts(event) {
        (s, Seq::empty())
    } else {
        match event {
            EventView::Message(message) => on_message(s, message),
            EventView::Finished { ok } => on_finished(s, ok),
            EventView::Pods { running } => on_pods(s, running),
            EventView::Status { status } => on_status(s, status),
        }
    }
}

/// The compiler actor.
pub struct Compiler {
    known_functions: NameMap<CompileStatus>,
    next_version: usize,
    is_compiling_now: bool,
    stage: Stage,
    current: String,
}

impl View for Compiler {
    type V = CompilerState;

    closed spec fn view(&self) -> CompilerState {
        CompilerState {
            known_functions: self.known_functions@,
            next_version: self.next_version,
            is_compiling_now: self.is_compiling_now,
            stage: self.stage,
            current: self.current@,
        }
    }
}

impl Compiler {
    /// Every actor that this module hands out is well formed: its
    /// representation is in order, and its state is one that
    /// `CompilerState::wf` admits.
    pub closed spec fn wf(&self) -> bool {
        self.known_functions.wf() && self@.wf()
    }

    /// From a well-formed actor contracts see a well-formed state.
    pub proof fn lemma_wf(&self)
        requires
            self.wf(),
        ensures
            self@.wf(),
    {
    }

    /// An actor that knows no function and has patched nothing.
    pub fn new() -> (res: Compiler)
        ensures
            res.wf(),
            res@ == CompilerState::init(),
    {
        Compiler {
            known_functions: NameMap::new(),
            next_version: 1,
            is_compiling_now: false,
            stage: Stage::Idle,
            current: String::new(),
        }
    }

    /// Where the actor stands.
    pub fn stage(&self) -> (res: Stage)
        ensures
            res == self@.stage,
    {
        self.stage
    }

    /// The version of the last patch, or 1 before the first.
    pub fn version(&self) -> (res: usize)
        ensures
            res == self@.next_version,
    {
        self.next_version
    }

    /// The function that the actor is working on, or was working on last.
    pub fn current(&self) -> (res: &String)
        ensures
            res@ == self@.current,
    {
        &self.current
    }

    /// Whether a build is running.
    pub fn is_compiling_now(&self) -> (res: bool)
        ensures
            res == self@.is_compiling_now,
    {
        self.is_compiling_now
    }

    /// The answer to a readiness probe: 200, or 503 while a build is running.
    pub fn ok_if_not_compiling(&self) -> (res: u16)
        ensures
            res == if self@.is_compiling_now {
                503u16
            } else {
                200u16
            },
    {
        if !self.is_compiling_now {
            200
        } else {
            503
        }
    }

    /// The status of `name`.
    pub fn compile_status(&self, name: &str) -> (res: CompileStatus)
        requires
            self.wf(),
        ensures
            res == self@.status_of(name@),
    {
        match self.known_functions.get(name) {
            Some(status) => *status,
            None => CompileStatus::Vanilla,
        }
    }

    /// Whether the actor holds an entry for `name`.
    pub fn is_known(&self, name: &str) -> (res: bool)
        requires
            self.wf(),
        ensures
            res == self@.known_functions.contains_key(name@),
    {
        self.known_functions.contains(name)
    }

    /// Whether `event` is what the actor waits for.
    pub fn accepts(&self, event: &Event) -> (res: bool)
        ensures
            res == self@.accepts(event@),
    {
        match self.stage {
            Stage::Idle => match event {
                Event::Message(_) => true,
                _ => false,
            },
            Stage::Generating | Stage::Removing | Stage::Building { .. } => match event {
                Event::Finished { .. } => true,
                _ => false,
            },
            Stage::Rollout { .. } => match event {
                Event::Pods { .. } => true,
                _ => false,
            },
            Stage::Polling { .. } => match event {
                Event::Status { .. } => true,
                _ => false,
            },
            Stage::Stopped => false,
        }
    }

    /// The functions of the dispatch table: each known function that has not
    /// failed, once.
    pub fn dispatch_table(&self) -> (res: Vec<String>)
        requires
            self.wf(),
        ensures
            forall|i: int, j: int| 0 <= i < j < res.len() ==> res[i]@ != res[j]@,
            forall|name: Seq<char>|
                self@.lists(name) <==> exists|i: int| 0 <= i < res.len() && res[i]@ == name,
    {
        let n = self.known_functions.size();
        let ghost keys = self.known_functions.keys();
        let ghost known = self.known_functions@;
        let mut table: Vec<String> = Vec::new();
        let ghost mut from: Seq<int> = Seq::empty();
        let mut k: usize = 0;
        while k < n
            invariant
                self.wf(),
                k <= n,
                n == keys.len(),
                keys == self.known_functions.keys(),
                known == self.known_functions@,
                self.known_functions.keys_agree(),
                from.len() == table.len(),
                forall|i: int|
                    0 <= i < table.len() ==> 0 <= #[trigger] from[i] < k && table[i]@
                        == keys[from[i]] && known[keys[from[i]]] != CompileStatus::Error,
                forall|i: int, j: int| 0 <= i < j < table.len() ==> from[i] < from[j],
                forall|p: int|
                    0 <= p < k && known[#[trigger] keys[p]] != CompileStatus::Error
                        ==> exists|i: int| 0 <= i < table.len() && from[i] == p,
            decreases n - k,
        {
            let status = *self.known_functions.value_at(k);
            if status != CompileStatus::Error {
                let name = self.known_functions.key_at(k).clone();
                let ghost before = from;
                table.push(name);
                proof {
                    from = from.push(k as int);
                    assert forall|p: int|
                        0 <= p < k + 1 && known[#[trigger] keys[p]]
                            != CompileStatus::Error implies exists|i: int|
                        0 <= i < table.len() && from[i] == p by {
                        if p < k {
                            let i = choose|i: int| 0 <= i < before.len() && before[i] == p;
                            assert(from[i] == p);
                        } else {
                            assert(from[table.len() - 1] == p);
                        }
                    }
                }
            }
            k += 1;
        }
        proof {
            assert forall|i: int, j: int| 0 <= i < j < table.len() implies table[i]@
                != table[j]@ by {
                assert(from[i] < from[j]);
                assert(keys[from[i]] != keys[from[j]]);
            }
            assert forall|name: Seq<char>| self@.lists(name) implies exists|i: int|
                0 <= i < table.len() && table[i]@ == name by {
                assert(keys.contains(name));
                let p = choose|p: int| 0 <= p < keys.len() && keys[p] == name;
                let i = choose|i: int| 0 <= i < table.len() && from[i] == p;
                assert(table[i]@ == name);
            }
            assert forall|name: Seq<char>|
                (exists|i: int| 0 <= i < table.len() && table[i]@ == name) implies self@.lists(
                name,
            ) by {
                let i = choose|i: int| 0 <= i < table.len() && table[i]@ == name;
                assert(keys[from[i]] == name);
                assert(keys.contains(name));
            }
        }
        table
    }

    fn set_status(&mut self, status: CompileStatus)
        requires
            old(self).known_functions.wf(),
        ensures
            final(self).known_functions.wf(),
            final(self)@ == old(self)@.with_status(status),
    {
        let name = self.current.clone();
        self.known_functions.insert(name, status);
    }

    fn receive(&mut self, message: Message) -> (res: Vec<Action>)
        requires
            old(self).wf(),
            old(self)@.stage is Idle,
        ensures
            final(self).wf(),
            (final(self)@, res@) == on_message(old(self)@, message@),
    {
        let ghost before = self@;
        let mut actions: Vec<Action> = Vec::new();
        match message {
            Message::RecompileDispatcher => {
                self.is_compiling_now = true;
                self.stage = Stage::Building { job: Job::Recompile };
                actions.push(Action::SignalStartedCompiling);
                actions.push(Action::Build);
            },
            Message::ResetDispatcher => {
                self.known_functions.clear();
                self.is_compiling_now = true;
                self.stage = Stage::Building { job: Job::ResetDispatcher };
                actions.push(Action::WriteDispatchTable);
                actions.push(Action::SignalStartedCompiling);
                actions.push(Action::Build);
            },
            Message::CreateFunction { name, exclusive } => {
                if self.known_functions.contains(name.as_str()) {
                    self.known_functions.insert(name, CompileStatus::Error);
                } else {
                    if exclusive {
                        self.known_functions.clear();
                    }
                    self.known_functions.insert(name, CompileStatus::Vanilla);
                    actions.push(Action::SignalDone);
                }
            },
            Message::ResetFunction { name } => {
                match self.known_functions.remove(name.as_str()) {
                    None | Some(CompileStatus::Vanilla) => {
                        actions.push(Action::SignalStartedCompiling);
                        actions.push(Action::SignalDeployed);
                    },
                    Some(CompileStatus::Compiled) => {
                        self.current = name;
                        self.stage = Stage::Removing;
                        actions.push(Action::RemoveTraceFiles);
                    },
                    Some(CompileStatus::Compiling) | Some(CompileStatus::Error) => {},
                }
            },
            Message::Compile { name } => {
                self.current = name;
                self.stage = Stage::Generating;
                actions.push(Action::WriteTrace);
                actions.push(Action::GenerateSource);
            },
            Message::Shutdown => {
                self.stage = Stage::Stopped;
                actions.push(Action::DeleteDynamicResources { all: true });
                actions.push(Action::SignalDone);
                actions.push(Action::Stop);
            },
            Message::GetDispatcherVersion => {
                self.stage = Stage::Polling { polls: 0 };
                actions.push(Action::Sleep);
                actions.push(Action::GetStatus);
            },
        }
        proof {
            let expected = on_message(before, message@);
            assert(self@ =~= expected.0);
            assert(actions@ =~= expected.1);
        }
        actions
    }

    fn finished(&mut self, ok: bool) -> (res: Vec<Action>)
        requires
            old(self).wf(),
            old(self)@.next_version < usize::MAX,
        ensures
            final(self).wf(),
            (final(self)@, res@) == on_finished(old(self)@, ok),
    {
        let ghost before = self@;
        let mut actions: Vec<Action> = Vec::new();
        match self.stage {
            Stage::Generating => {
                if ok {
                    self.set_status(CompileStatus::Compiling);
                    self.is_compiling_now = true;
                    self.stage = Stage::Building { job: Job::Compile };
                    actions.push(Action::WriteDispatchTable);
                    actions.push(Action::Build);
                } else {
                    self.set_status(CompileStatus::Error);
                    self.stage = Stage::Idle;
                    actions.push(Action::WriteDispatchTable);
                }
            },
            Stage::Removing => {
                if ok {
                    self.is_compiling_now = true;
                    self.stage = Stage::Building { job: Job::ResetFunction };
                    actions.push(Action::WriteDispatchTable);
                    actions.push(Action::SignalStartedCompiling);
                    actions.push(Action::Build);
                } else {
                    self.set_status(CompileStatus::Error);
                    self.stage = Stage::Idle;
                }
            },
            Stage::Building { job } => {
                self.is_compiling_now = false;
                if ok {
                    let version = self.next_version + 1;
                    self.next_version = version;
                    match job {
                        Job::Recompile | Job::ResetDispatcher => {
                            self.stage = Stage::Idle;
                            actions.push(Action::DeleteDynamicResources { all: false });
                            actions.push(Action::PatchDeployment { version });
                        },
                        Job::ResetFunction => {
                            self.stage = Stage::Rollout { job, polls: 0 };
                            actions.push(Action::PatchDeployment { version });
                            actions.push(Action::ListPods { version });
                        },
                        Job::Compile => {
                            self.set_status(CompileStatus::Compiled);
                            self.stage = Stage::Rollout { job, polls: 0 };
                            actions.push(Action::PatchDeployment { version });
                            actions.push(Action::ListPods { version });
                        },
                    }
                } else {
                    self.stage = Stage::Idle;
                    match job {
                        Job::Recompile | Job::ResetDispatcher => {},
                        Job::ResetFunction | Job::Compile => {
                            self.set_status(CompileStatus::Error);
                            actions.push(Action::WriteDispatchTable);
                        },
                    }
                }
            },
            _ => {},
        }
        proof {
            let expected = on_finished(before, ok);
            assert(self@ =~= expected.0);
            assert(actions@ =~= expected.1);
        }
        actions
    }

    fn pods(&mut self, running: Option<usize>) -> (res: Vec<Action>)
        requires
            old(self).wf(),
        ensures
            final(self).wf(),
            (final(self)@, res@) == on_pods(old(self)@, running),
    {
        let ghost before = self@;
        let mut actions: Vec<Action> = Vec::new();
        match self.stage {
            Stage::Rollout { job, polls } => {
                let polled = match running {
                    Some(_) => true,
                    None => false,
                };
                let ready = match running {
                    Some(n) => n == 1,
                    None => false,
                };
                if ready {
                    self.stage = Stage::Idle;
                    if job == Job::ResetFunction {
                        actions.push(Action::SignalDeployed);
                    }
                } else if polled && polls + 1 < MAX_POLLS {
                    self.stage = Stage::Rollout { job, polls: polls + 1 };
                    actions.push(Action::Sleep);
                    actions.push(Action::ListPods { version: self.next_version });
                } else {
                    self.set_status(CompileStatus::Error);
                    self.stage = Stage::Idle;
                    if job == Job::Compile {
                        actions.push(Action::WriteDispatchTable);
                    }
                }
            },
            _ => {},
        }
        proof {
            let expected = on_pods(before, running);
            assert(self@ =~= expected.0);
            assert(actions@ =~= expected.1);
        }
        actions
    }

    fn status(&mut self, status: Option<DeploymentStatus>) -> (res: Vec<Action>)
        requires
            old(self).wf(),
        ensures
            final(self).wf(),
            (final(self)@, res@) == on_status(old(self)@, status),
    {
        let ghost before = self@;
        let mut actions: Vec<Action> = Vec::new();
        match self.stage {
            Stage::Polling { polls } => {
                match status {
                    Some(status) => {
                        if status.replicas == 1 {
                            self.stage = Stage::Idle;
                            actions.push(
                                Action::ReplyVersion { version: status.observed_generation },
                            );
                        } else if polls + 1 < MAX_POLLS {
                            self.stage = Stage::Polling { polls: polls + 1 };
                            actions.push(Action::Sleep);
                            actions.push(Action::GetStatus);
                        } else {
                            self.stage = Stage::Idle;
                        }
                    },
                    None => {
                        self.stage = Stage::Idle;
                    },
                }
            },
            _ => {},
        }
        proof {
            let expected = on_status(before, status);
            assert(self@ =~= expected.0);
            assert(actions@ =~= expected.1);
        }
        actions
    }

    /// Takes `event` and returns the work to do next, in order. The state
    /// and the work are those of [`transition`].
    ///
    /// A patch takes the version after the last; the last version of the
    /// machine cannot be followed.
    pub fn step(&mut self, event: Event) -> (res: Vec<Action>)
        requires
            old(self).wf(),
            old(self)@.next_version < usize::MAX,
        ensures
            final(self).wf(),
            (final(self)@, res@) == transition(old(self)@, event@),
    {
        if !self.accepts(&event) {
            return Vec::new();
        }
        match event {
            Event::Message(message) => self.receive(message),
            Event::Finished { ok } => self.finished(ok),
            Event::Pods { running } => self.pods(running),
            Event::Status { status } => self.status(status),
        }
    }
}

/// The state after each of `events` in turn, from `s`, and all the work
/// ordered on the way.
pub open spec fn run(s: CompilerState, events: Seq<EventView>) -> (CompilerState, Seq<Action>)
    decreases events.len(),
{
    if events.len() == 0 {
        (s, Seq::empty())
    } else {
        let (middle, earlier) = run(s, events.drop_last());
        let (end, last) = transition(middle, events.last());
        (end, earlier + last)
    }
}

/// The version that `action` patches the deployment to, if it is a patch.
pub open spec fn patched(action: Action) -> Option<usize> {
    match action {
        Action::PatchDeployment { version } => Some(version),
        _ => None,
    }
}

/// The actor starts in a state that is well formed.
pub proof fn lemma_init_is_well_formed()
    ensures
        CompilerState::init().wf(),
        CompilerState::init().stage is Idle,
{
}

/// Whatever happens, the state stays well formed.
pub proof fn lemma_transition_keeps_well_formed(s: CompilerState, event: EventView)
    requires
        s.wf(),
        s.next_version < usize::MAX,
    ensures
        transition(s, event).0.wf(),
{
}

/// At most one build runs at a time. A step orders a build only while none
/// runs, orders one at most, and raises the flag with it; the flag stays up
/// until that build has reported, and falls when it does.
pub proof fn lemma_one_build_at_a_time(s: CompilerState, event: EventView)
    requires
        s.wf(),
    ensures
        ({
            let (next, actions) = transition(s, event);
            &&& s.is_compiling_now ==> !actions.contains(Action::Build)
            &&& actions.contains(Action::Build) <==> !s.is_compiling_now && next.is_compiling_now
            &&& forall|i: int, j: int|
                0 <= i < j < actions.len() ==> !(actions[i] == Action::Build && actions[j]
                    == Action::Build)
            &&& s.is_compiling_now && !(event is Finished) ==> next.is_compiling_now
            &&& s.is_compiling_now && event is Finished ==> !next.is_compiling_now
        }),
{
    let (next, actions) = transition(s, event);
    if s.accepts(event) {
        match event {
            EventView::Message(message) => {
                let expected = on_message(s, message);
                if next.is_compiling_now {
                    assert(actions[actions.len() - 1] == Action::Build);
                }
            },
            EventView::Finished { ok } => {
                if next.is_compiling_now {
                    assert(actions[actions.len() - 1] == Action::Build);
                }
            },
            EventView::Pods { running } => {},
            EventView::Status { status } => {},
        }
    }
}

/// A patch always comes with a new version, and a new version with a patch:
/// a step that patches the deployment patches it once, to the version after
/// the last, and no other step changes the version.
pub proof fn lemma_patch_pairs_with_version(s: CompilerState, event: EventView)
    requires
        s.wf(),
        s.next_version < usize::MAX,
    ensures
        ({
            let (next, actions) = transition(s, event);
            &&& next.next_version == s.next_version || next.next_version == s.next_version + 1
            &&& forall|i: int|
                0 <= i < actions.len() && patched(#[trigger] actions[i]) is Some ==> patched(
                    actions[i],
                ) == Some(next.next_version) && next.next_version == s.next_version + 1
            &&& next.next_version == s.next_version + 1 ==> exists|i: int|
                0 <= i < actions.len() && patched(#[trigger] actions[i]) is Some
            &&& forall|i: int, j: int|
                0 <= i < j < actions.len() ==> !(patched(actions[i]) is Some && patched(
                    actions[j],
                ) is Some)
        }),
{
    let (next, actions) = transition(s, event);
    if next.next_version == s.next_version + 1 {
        assert(s.accepts(event));
        assert(event is Finished);
        assert(s.stage is Building);
        match s.stage->Building_job {
            Job::Recompile | Job::ResetDispatcher => {
                assert(patched(actions[1]) is Some);
            },
            _ => {
                assert(patched(actions[0]) is Some);
            },
        }
    }
}

/// Every version that is ever patched in is greater than all that were
/// patched in before it: over any run of events from a well-formed state,
/// the versions of the patches rise strictly, each is greater than the
/// version at the start, and none is greater than the version at the end.
pub proof fn lemma_versions_rise(s: CompilerState, events: Seq<EventView>)
    requires
        s.wf(),
        s.next_version + events.len() < usize::MAX,
    ensures
        ({
            let (end, actions) = run(s, events);
            &&& end.wf()
            &&& s.next_version <= end.next_version <= s.next_version + events.len()
            &&& forall|i: int|
                0 <= i < actions.len() && patched(#[trigger] actions[i]) is Some
                    ==> s.next_version < patched(actions[i])->0 <= end.next_version
            &&& forall|i: int, j: int|
                0 <= i < j < actions.len() && patched(actions[i]) is Some && patched(
                    actions[j],
                ) is Some ==> patched(actions[i])->0 < patched(actions[j])->0
        }),
    decreases events.len(),
{
    if events.len() > 0 {
        lemma_versions_rise(s, events.drop_last());
        let (middle, earlier) = run(s, events.drop_last());
        lemma_transition_keeps_well_formed(middle, events.last());
        lemma_patch_pairs_with_version(middle, events.last());
        let (end, last) = transition(middle, events.last());
        let actions = earlier + last;
        assert forall|i: int|
            0 <= i < actions.len() && patched(#[trigger] actions[i]) is Some implies s.next_version
            < patched(actions[i])->0 <= end.next_version by {
            if i >= earlier.len() {
                assert(actions[i] == last[i - earlier.len()]);
            }
        }
        assert forall|i: int, j: int|
            0 <= i < j < actions.len() && patched(actions[i]) is Some && patched(
                actions[j],
            ) is Some implies patched(actions[i])->0 < patched(actions[j])->0 by {
            if j >= earlier.len() {
                assert(actions[j] == last[j - earlier.len()]);
                if i >= earlier.len() {
                    assert(actions[i] == last[i - earlier.len()]);
                } else {
                    assert(actions[i] == earlier[i]);
                }
            }
        }
    }
}

/// Creating a function twice fails it. The first creation of a name enters
/// it as `Vanilla` and reports back; a creation of a name that is entered
/// marks it as `Error` and reports nothing; and a reset takes the entry
/// away, after which the name can be created again.
pub proof fn lemma_double_create(s: CompilerState, name: Seq<char>, exclusive: bool)
    requires
        s.stage is Idle,
    ensures
        ({
            let create = EventView::Message(MessageView::CreateFunction { name, exclusive });
            let reset = EventView::Message(MessageView::ResetFunction { name });
            let (first, reported) = transition(s, create);
            let (second, reported_again) = transition(first, create);
            let (cleared, _) = transition(second, reset);
            &&& !s.known_functions.contains_key(name) ==> first.status_of(name)
                == CompileStatus::Vanilla && reported == seq![Action::SignalDone]
            &&& first.stage is Idle
            &&& second.status_of(name) == CompileStatus::Error
            &&& !second.lists(name)
            &&& reported_again == Seq::<Action>::empty()
            &&& cleared.stage is Idle
            &&& !cleared.known_functions.contains_key(name)
            &&& transition(cleared, create).1 == seq![Action::SignalDone]
        }),
{
}

/// A failure touches one function only. Where the source cannot be made
/// from the trace, or the build fails, the function that is being compiled
/// is marked as `Error` and leaves the dispatch table; every other function
/// keeps its status, and nothing is patched.
pub proof fn lemma_failure_is_contained(s: CompilerState, other: Seq<char>)
    requires
        s.wf(),
        s.stage == Stage::Generating || s.stage == (Stage::Building { job: Job::Compile }),
        other != s.current,
    ensures
        ({
            let (next, actions) = transition(s, EventView::Finished { ok: false });
            &&& next.status_of(s.current) == CompileStatus::Error
            &&& !next.lists(s.current)
            &&& next.status_of(other) == s.status_of(other)
            &&& next.lists(other) == s.lists(other)
            &&& next.next_version == s.next_version
            &&& actions == seq![Action::WriteDispatchTable]
            &&& next.stage is Idle
        }),
{
}

/// A function is `Compiled` only through a build that ended well.
pub proof fn lemma_compiled_comes_from_a_build(s: CompilerState, event: EventView, name: Seq<char>)
    requires
        s.wf(),
        s.status_of(name) != CompileStatus::Compiled,
        transition(s, event).0.status_of(name) == CompileStatus::Compiled,
    ensures
        s.stage == (Stage::Building { job: Job::Compile }),
        event == (EventView::Finished { ok: true }),
        name == s.current,
{
}

/// The HTTP status that answers a request to reset a function: 200 where the
/// actor has signalled both that the build began and that the new dispatcher
/// serves, and 500 else.
pub fn reset_function_status(started_compiling: bool, deployed: bool) -> (res: u16)
    ensures
        res == if started_compiling && deployed {
            200u16
        } else {
            500u16
        },
{
    if started_compiling && deployed {
        200
    } else {
        500
    }
}

/// The HTTP status that answers a request to create a function: 200 where
/// the actor has signalled that it is done, and 409 where it has not, which
/// it does for a function that was there before.
pub fn create_function_status(done: bool) -> (res: u16)
    ensures
        res == if done {
            200u16
        } else {
            409u16
        },
{
    if done {
        200
    } else {
        409
    }
}

} // verus!
