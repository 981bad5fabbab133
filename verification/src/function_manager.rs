//! The manager of one function: the state machine that decides, request by
//! request, whether the function is served natively, by its tracing replica
//! or by a replica that runs its source, and that scales those replicas.
//!
//! The manager decides and keeps the books. Talking to the cluster and to the
//! replicas is left to the caller: each method returns what is to be done.
use crate::autoscaler::{Autoscaler, AutoscalerState};
use crate::compiler::CompileStatus;
use vstd::prelude::*;

verus! {

/// The states of a manager.
#[derive(PartialEq, Eq, Structural, Clone, Copy, Debug)]
pub enum State {
    /// No replicas, no trace.
    New,
    /// Served by replicas that run the source; no trace in progress.
    Vanilla,
    /// As `Vanilla`, with one replica more that records a trace.
    Tracing,
    /// The trace is with the compiler; served as in `Vanilla`.
    AwaitingCompile,
    /// The native trace is linked and serves.
    Decontainerized,
    /// Building the trace failed. No request is served.
    Error,
    /// The manager has released its replicas and ended.
    Shutdown,
}

/// How a manager comes to be.
#[derive(PartialEq, Eq, Structural, Clone, Copy, Debug)]
pub enum CreateMode {
    /// For a function that runs nowhere yet.
    New,
    /// For a function whose replicas were found running.
    Adopt { num_replicas: i32, is_tracing: bool },
}

/// Where a request goes.
#[derive(PartialEq, Eq, Structural, Clone, Copy, Debug)]
pub enum Route {
    /// To the native trace, in process.
    Native,
    /// To the tracing replica.
    Tracing,
    /// To the replica with this number among those that run the source.
    Vanilla { replica: usize },
    /// To the one replica that runs the source, which is to be created
    /// first, and waited for until it is ready.
    FirstReplica,
    /// Nowhere: the manager serves no request.
    Refused,
}

/// After how many seconds without a request to a replica a function that is
/// served natively gives up its replicas.
pub const IDLE_TICKS: usize = 30;

/// How often the first replica of a function is probed for readiness, one
/// second apart, before the cluster is given up as unavailable.
pub const READINESS_POLLS: u32 = 60;

/// What follows a readiness probe.
#[derive(PartialEq, Eq, Structural, Clone, Copy, Debug)]
pub enum Readiness {
    /// The replica is ready: send the request.
    Ready,
    /// Wait a second, and probe again.
    Again,
    /// Give up: the cluster is unavailable.
    Unavailable,
}

/// What follows a readiness probe that came after `polls` probes without
/// success, and that found the replica ready or not.
pub open spec fn readiness_after(polls: u32, ready: bool) -> Readiness {
    if ready {
        Readiness::Ready
    } else if polls + 1 < READINESS_POLLS {
        Readiness::Again
    } else {
        Readiness::Unavailable
    }
}

/// Decides what follows a readiness probe that came after `polls` probes
/// without success.
pub fn await_ready(polls: u32, ready: bool) -> (res: Readiness)
    ensures
        res == readiness_after(polls, ready),
{
    if ready {
        Readiness::Ready
    } else if polls < READINESS_POLLS - 1 {
        Readiness::Again
    } else {
        Readiness::Unavailable
    }
}

/// One function, as its manager knows it.
#[derive(PartialEq, Eq, Structural, Clone, Copy, Debug)]
pub struct Function {
    pub state: State,
    pub compile_status: CompileStatus,
    /// Whether a native trace of the function is linked into this process.
    pub native_trace: bool,
    /// Set when the native trace has answered "unknown" too often: from then
    /// on the trace serves nothing until a reset.
    pub awaiting_reset: bool,
    pub replicas_vanilla: usize,
    pub replicas_tracing: usize,
    /// How many requests have gone to the tracing replica.
    pub traced: usize,
    /// Whether a request is out at the tracing replica.
    pub tracing_busy: bool,
    /// The replica that the next request for the source goes to.
    pub cursor: usize,
    /// How often the native trace answered "unknown" since the window began.
    pub unknowns: usize,
    /// For how many ticks in a row no request went to a replica while the
    /// function was served natively.
    pub idle_ticks: usize,
    /// How many requests the tracing replica is given at most.
    pub tracing_budget: usize,
    /// How many "unknown" answers in one window are borne.
    pub unknown_limit: usize,
}

impl Function {
    /// What holds of a function at all times. At most one tracing replica
    /// runs. Only a trace that is compiled is linked. A function that its
    /// manager has not started or has shut down runs nowhere.
    pub open spec fn wf(self) -> bool {
        &&& self.replicas_tracing <= 1
        &&& self.state == State::Tracing ==> self.replicas_tracing == 1
        &&& self.native_trace ==> self.compile_status == CompileStatus::Compiled
        &&& self.state == State::Decontainerized ==> self.native_trace
        &&& self.native_trace ==> self.state == State::Decontainerized || self.state
            == State::Shutdown
        &&& self.awaiting_reset ==> self.state == State::Decontainerized
        &&& self.tracing_busy ==> self.state == State::Tracing
        &&& self.state == State::New || self.state == State::Shutdown ==> self.replicas_vanilla
            == 0 && self.replicas_tracing == 0
        &&& self.replicas_vanilla > 0 ==> self.cursor < self.replicas_vanilla
        &&& self.idle_ticks <= IDLE_TICKS
        &&& self.state == State::Decontainerized && self.idle_ticks == IDLE_TICKS
            ==> self.replicas_vanilla == 0 && self.replicas_tracing == 0
    }

    /// The function at the birth of its manager. With a native trace linked
    /// it is served natively from the start; else it is in the state that
    /// the replicas found call for.
    pub open spec fn created(
        mode: CreateMode,
        native_trace: bool,
        tracing_budget: usize,
        unknown_limit: usize,
    ) -> Function {
        let found_vanilla: usize = match mode {
            CreateMode::Adopt { num_replicas, .. } if num_replicas > 0 => num_replicas as usize,
            _ => 0,
        };
        let found_tracing: usize = match mode {
            CreateMode::Adopt { is_tracing: true, .. } => 1,
            _ => 0,
        };
        Function {
            state: if native_trace {
                State::Decontainerized
            } else if found_tracing == 1 {
                State::Tracing
            } else if found_vanilla > 0 {
                State::Vanilla
            } else {
                State::New
            },
            compile_status: if native_trace {
                CompileStatus::Compiled
            } else {
                CompileStatus::Vanilla
            },
            native_trace,
            awaiting_reset: false,
            replicas_vanilla: found_vanilla,
            replicas_tracing: found_tracing,
            traced: 0,
            tracing_busy: false,
            cursor: 0,
            unknowns: 0,
            idle_ticks: 0,
            tracing_budget,
            unknown_limit,
        }
    }

    /// A request goes to a replica that runs the source: to each in turn,
    /// or to a first one that is made for it.
    pub open spec fn to_vanilla(self) -> (Function, Route) {
        if self.replicas_vanilla == 0 {
            (Function { replicas_vanilla: 1, cursor: 0, idle_ticks: 0, ..self }, Route::FirstReplica)
        } else {
            (
                Function {
                    cursor: if self.cursor + 1 < self.replicas_vanilla {
                        (self.cursor + 1) as usize
                    } else {
                        0
                    },
                    idle_ticks: 0,
                    ..self
                },
                Route::Vanilla { replica: self.cursor },
            )
        }
    }

    /// A request comes in. The backend is chosen now, by the state.
    pub open spec fn invoked(self) -> (Function, Route) {
        match self.state {
            State::Decontainerized => if self.awaiting_reset {
                self.to_vanilla()
            } else {
                (self, Route::Native)
            },
            State::Vanilla | State::AwaitingCompile => self.to_vanilla(),
            State::Tracing => if !self.tracing_busy && self.traced < self.tracing_budget {
                (
                    Function { tracing_busy: true, traced: (self.traced + 1) as usize, ..self },
                    Route::Tracing,
                )
            } else {
                self.to_vanilla()
            },
            State::New => Function { state: State::Vanilla, ..self }.to_vanilla(),
            State::Error | State::Shutdown => (self, Route::Refused),
        }
    }

    /// The native trace has answered "unknown". The request goes to a
    /// replica that runs the source; and past the limit of such answers the
    /// trace serves no more until a reset.
    pub open spec fn unknown(self) -> (Function, Route) {
        if self.state == State::Decontainerized {
            let counted = Function {
                unknowns: if self.unknowns < self.unknown_limit {
                    (self.unknowns + 1) as usize
                } else {
                    self.unknowns
                },
                awaiting_reset: self.awaiting_reset || self.unknowns >= self.unknown_limit,
                ..self
            };
            counted.to_vanilla()
        } else {
            self.invoked()
        }
    }

    /// The window over which "unknown" answers are counted begins anew.
    pub open spec fn unknowns_forgotten(self) -> Function {
        Function { unknowns: 0, ..self }
    }

    /// The request rate is stable: a function that is served from its source
    /// and has no trace gets its tracing replica. The result says whether the
    /// replica is to be created.
    pub open spec fn tracing_started(self) -> (Function, bool) {
        if self.state == State::Vanilla && self.compile_status == CompileStatus::Vanilla
            && self.replicas_tracing == 0 {
            (
                Function {
                    state: State::Tracing,
                    replicas_tracing: 1,
                    traced: 0,
                    tracing_busy: false,
                    ..self
                },
                true,
            )
        } else {
            (self, false)
        }
    }

    /// The request at the tracing replica has ended.
    pub open spec fn traced_request_ended(self) -> Function {
        Function { tracing_busy: false, ..self }
    }

    /// The tracing replica has handed over a trace of `trace_len` bytes. A
    /// trace that is not empty goes to the compiler, and the replica goes
    /// away. The result says whether that is so.
    pub open spec fn trace_captured(self, trace_len: usize) -> (Function, bool) {
        if self.state == State::Tracing && trace_len > 0 {
            (
                Function {
                    state: State::AwaitingCompile,
                    compile_status: CompileStatus::Compiling,
                    replicas_tracing: 0,
                    tracing_busy: false,
                    ..self
                },
                true,
            )
        } else {
            (self, false)
        }
    }

    /// Tracing is given up: the replica crashed, or gave no trace in time.
    /// The result says whether the tracing replica is to be deleted.
    pub open spec fn tracing_aborted(self) -> (Function, bool) {
        if self.state == State::Tracing {
            (
                Function {
                    state: State::Vanilla,
                    replicas_tracing: 0,
                    tracing_busy: false,
                    ..self
                },
                true,
            )
        } else {
            (self, false)
        }
    }

    /// The compiler reports: the dispatcher with the trace serves (`ok`), or
    /// building or rolling out failed.
    pub open spec fn compile_reported(self, ok: bool) -> Function {
        if self.state == State::AwaitingCompile {
            if ok {
                Function {
                    state: State::Decontainerized,
                    compile_status: CompileStatus::Compiled,
                    native_trace: true,
                    awaiting_reset: false,
                    unknowns: 0,
                    idle_ticks: 0,
                    ..self
                }
            } else {
                Function { state: State::Error, compile_status: CompileStatus::Error, ..self }
            }
        } else {
            self
        }
    }

    /// A reset: the trace is dropped, and the function is served from its
    /// source again, on one replica at least.
    pub open spec fn reset(self) -> Function {
        match self.state {
            State::Decontainerized => Function {
                state: State::Vanilla,
                compile_status: CompileStatus::Vanilla,
                native_trace: false,
                awaiting_reset: false,
                unknowns: 0,
                idle_ticks: 0,
                replicas_vanilla: if self.replicas_vanilla == 0 {
                    1
                } else {
                    self.replicas_vanilla
                },
                replicas_tracing: 0,
                cursor: if self.replicas_vanilla == 0 {
                    0
                } else {
                    self.cursor
                },
                ..self
            },
            State::Tracing => self.tracing_aborted().0,
            _ => self,
        }
    }

    /// The manager ends, and with it every replica.
    pub open spec fn shut_down(self) -> Function {
        Function {
            state: State::Shutdown,
            awaiting_reset: false,
            tracing_busy: false,
            replicas_vanilla: 0,
            replicas_tracing: 0,
            cursor: 0,
            ..self
        }
    }

    /// The number of replicas is now `count`.
    pub open spec fn scaled(self, count: usize) -> Function {
        Function {
            replicas_vanilla: count,
            cursor: if self.cursor < count {
                self.cursor
            } else {
                0
            },
            ..self
        }
    }

    /// A tick of one second in which `completed` requests ended at the
    /// replicas, with `target` what the autoscaler asks for. A function
    /// served from its source follows the autoscaler. A function served
    /// natively gives up its replicas after `IDLE_TICKS` ticks in a row
    /// without a request to them. The result is the number of replicas to
    /// patch the cluster to, where that changes.
    pub open spec fn ticked(self, completed: usize, target: usize) -> (Function, Option<usize>) {
        match self.state {
            State::Vanilla | State::Tracing | State::AwaitingCompile => if target
                != self.replicas_vanilla {
                (self.scaled(target), Some(target))
            } else {
                (self, None)
            },
            State::Decontainerized => {
                let idle: usize = if completed > 0 {
                    0
                } else if self.idle_ticks < IDLE_TICKS {
                    (self.idle_ticks + 1) as usize
                } else {
                    self.idle_ticks
                };
                if idle == IDLE_TICKS {
                    (
                        Function { idle_ticks: idle, replicas_tracing: 0, ..self.scaled(0) },
                        if self.replicas_vanilla != 0 || self.replicas_tracing != 0 {
                            Some(0usize)
                        } else {
                            None
                        },
                    )
                } else {
                    (Function { idle_ticks: idle, ..self }, None)
                }
            },
            State::New | State::Error | State::Shutdown => (self, None),
        }
    }

}

/// The manager as contracts see it.
pub struct ManagerState {
    pub function: Function,
    pub autoscaler: AutoscalerState,
}

impl ManagerState {
    /// The manager at its birth: the function as `Function::created` has
    /// it, and an autoscaler that has seen no tick.
    pub open spec fn created(mode: CreateMode, native_trace: bool, limits: Limits) -> ManagerState {
        ManagerState {
            function: Function::created(
                mode,
                native_trace,
                limits.tracing_budget,
                limits.unknown_limit,
            ),
            autoscaler: AutoscalerState {
                samples: Seq::empty(),
                width: limits.window,
                rate_per_replica: limits.rate_per_replica,
                max_replicas: limits.max_replicas,
            },
        }
    }
}

/// What a manager can be told.
#[derive(PartialEq, Eq, Structural, Clone, Copy, Debug)]
pub enum Command {
    /// A request has come in.
    Invoke,
    /// The native trace has answered "unknown" to a request.
    NativeUnknown,
    /// A new window of "unknown" answers begins.
    ForgetUnknowns,
    /// The request rate is stable.
    StartTracing,
    /// Start tracing if the request rate is stable.
    TraceIfStable,
    /// The request at the tracing replica has ended.
    TracedRequestEnded,
    /// The tracing replica has handed over a trace of `trace_len` bytes.
    TraceCaptured { trace_len: usize },
    /// The tracing replica crashed, or gave no trace in time.
    AbortTracing,
    /// The compiler reports on the trace.
    CompileReported { ok: bool },
    /// The trace is to be dropped.
    Reset,
    /// The manager is to end.
    Shutdown,
    /// A second has gone by, in which `completed` requests ended at the
    /// replicas.
    Tick { completed: usize },
}

/// What the caller is to do after a command.
#[derive(PartialEq, Eq, Structural, Clone, Copy, Debug)]
pub enum Outcome {
    /// Send the request this way.
    Route(Route),
    /// After `StartTracing` and `TraceIfStable`: create the tracing replica,
    /// if `true`. After
    /// `TraceCaptured`: hand the trace to the compiler and delete the tracing
    /// replica, if `true`. After `AbortTracing`: delete the tracing replica,
    /// if `true`.
    Replica(bool),
    /// Patch the cluster to this number of replicas, if any.
    Scale(Option<usize>),
    /// Nothing.
    Done,
}

impl ManagerState {
    /// Whether the request rate is stable: over the whole width of its
    /// window the autoscaler has seen nothing that calls for another number
    /// of replicas than run.
    pub open spec fn is_stable(self) -> bool {
        self.autoscaler.is_steady(self.function.replicas_vanilla)
    }

    /// The manager after `command`, and what the caller is to do.
    pub open spec fn applied(self, command: Command) -> (ManagerState, Outcome) {
        let f = self.function;
        match command {
            Command::Invoke => (
                ManagerState { function: f.invoked().0, ..self },
                Outcome::Route(f.invoked().1),
            ),
            Command::NativeUnknown => (
                ManagerState { function: f.unknown().0, ..self },
                Outcome::Route(f.unknown().1),
            ),
            Command::ForgetUnknowns => (
                ManagerState { function: f.unknowns_forgotten(), ..self },
                Outcome::Done,
            ),
            Command::StartTracing => (
                ManagerState { function: f.tracing_started().0, ..self },
                Outcome::Replica(f.tracing_started().1),
            ),
            Command::TraceIfStable => if self.is_stable() {
                (
                    ManagerState { function: f.tracing_started().0, ..self },
                    Outcome::Replica(f.tracing_started().1),
                )
            } else {
                (self, Outcome::Replica(false))
            },
            Command::TracedRequestEnded => (
                ManagerState { function: f.traced_request_ended(), ..self },
                Outcome::Done,
            ),
            Command::TraceCaptured { trace_len } => (
                ManagerState { function: f.trace_captured(trace_len).0, ..self },
                Outcome::Replica(f.trace_captured(trace_len).1),
            ),
            Command::AbortTracing => (
                ManagerState { function: f.tracing_aborted().0, ..self },
                Outcome::Replica(f.tracing_aborted().1),
            ),
            Command::CompileReported { ok } => (
                ManagerState { function: f.compile_reported(ok), ..self },
                Outcome::Done,
            ),
            Command::Reset => (ManagerState { function: f.reset(), ..self }, Outcome::Done),
            Command::Shutdown => (ManagerState { function: f.shut_down(), ..self }, Outcome::Done),
            Command::Tick { completed } => {
                let autoscaler = self.autoscaler.sampled(completed);
                let (function, scale) = f.ticked(completed, autoscaler.target() as usize);
                (ManagerState { function, autoscaler }, Outcome::Scale(scale))
            },
        }
    }
}

/// The manager of one function.
pub struct FunctionManager {
    function: Function,
    autoscaler: Autoscaler,
}

impl View for FunctionManager {
    type V = ManagerState;

    closed spec fn view(&self) -> ManagerState {
        ManagerState { function: self.function, autoscaler: self.autoscaler@ }
    }
}

/// The knobs of a manager.
#[derive(PartialEq, Eq, Structural, Clone, Copy, Debug)]
pub struct Limits {
    /// How many requests the tracing replica is given at most.
    pub tracing_budget: usize,
    /// How many "unknown" answers in one window are borne.
    pub unknown_limit: usize,
    /// Over how many ticks the autoscaler looks back. Not zero.
    pub window: usize,
    /// How many requests a replica is meant to take in a tick. Not zero.
    pub rate_per_replica: usize,
    /// The greatest number of replicas. Not zero.
    pub max_replicas: usize,
}

impl Limits {
    /// Whether the knobs can be used: none of the last three is zero.
    pub open spec fn valid(self) -> bool {
        self.window > 0 && self.rate_per_replica > 0 && self.max_replicas > 0
    }

    /// Whether the knobs can be used.
    pub fn is_valid(&self) -> (res: bool)
        ensures
            res == self.valid(),
    {
        self.window > 0 && self.rate_per_replica > 0 && self.max_replicas > 0
    }
}

impl FunctionManager {
    /// Every manager that this module hands out is well formed.
    pub closed spec fn wf(&self) -> bool {
        self.autoscaler.wf() && self.function.wf()
    }

    /// From a well-formed manager contracts see a well-formed function.
    pub proof fn lemma_wf(&self)
        requires
            self.wf(),
        ensures
            self@.function.wf(),
    {
    }

    /// The manager of a function, in the state that `mode` and the presence
    /// of a native trace call for.
    pub fn new(mode: CreateMode, native_trace: bool, limits: Limits) -> (res: FunctionManager)
        requires
            limits.valid(),
        ensures
            res.wf(),
            res@ == ManagerState::created(mode, native_trace, limits),
    {
        let found_vanilla: usize = match mode {
            CreateMode::Adopt { num_replicas, .. } => if num_replicas > 0 {
                num_replicas as usize
            } else {
                0
            },
            CreateMode::New => 0,
        };
        let found_tracing: usize = match mode {
            CreateMode::Adopt { is_tracing, .. } => if is_tracing {
                1
            } else {
                0
            },
            CreateMode::New => 0,
        };
        let state = if native_trace {
            State::Decontainerized
        } else if found_tracing == 1 {
            State::Tracing
        } else if found_vanilla > 0 {
            State::Vanilla
        } else {
            State::New
        };
        let function = Function {
            state,
            compile_status: if native_trace {
                CompileStatus::Compiled
            } else {
                CompileStatus::Vanilla
            },
            native_trace,
            awaiting_reset: false,
            replicas_vanilla: found_vanilla,
            replicas_tracing: found_tracing,
            traced: 0,
            tracing_busy: false,
            cursor: 0,
            unknowns: 0,
            idle_ticks: 0,
            tracing_budget: limits.tracing_budget,
            unknown_limit: limits.unknown_limit,
        };
        FunctionManager {
            function,
            autoscaler: Autoscaler::new(
                limits.window,
                limits.rate_per_replica,
                limits.max_replicas,
            ),
        }
    }

    /// The function as the manager knows it.
    pub fn function(&self) -> (res: Function)
        ensures
            res == self@.function,
    {
        self.function
    }

    /// The state of the manager.
    pub fn state(&self) -> (res: State)
        ensures
            res == self@.function.state,
    {
        self.function.state
    }

    fn to_vanilla(&mut self) -> (res: Route)
        requires
            old(self).wf(),
            old(self).function.state != State::New,
            old(self).function.state != State::Shutdown,
            old(self).function.state != State::Tracing || old(self).function.replicas_tracing == 1,
        ensures
            final(self).wf(),
            final(self)@.autoscaler == old(self)@.autoscaler,
            (final(self)@.function, res) == old(self)@.function.to_vanilla(),
    {
        if self.function.replicas_vanilla == 0 {
            self.function.replicas_vanilla = 1;
            self.function.cursor = 0;
            self.function.idle_ticks = 0;
            Route::FirstReplica
        } else {
            let replica = self.function.cursor;
            self.function.cursor = if replica + 1 < self.function.replicas_vanilla {
                replica + 1
            } else {
                0
            };
            self.function.idle_ticks = 0;
            Route::Vanilla { replica }
        }
    }

    /// Chooses the backend of a request that has just come in.
    pub fn invoke(&mut self) -> (res: Route)
        requires
            old(self).wf(),
        ensures
            final(self).wf(),
            final(self)@.autoscaler == old(self)@.autoscaler,
            (final(self)@.function, res) == old(self)@.function.invoked(),
    {
        match self.function.state {
            State::Decontainerized => {
                if self.function.awaiting_reset {
                    self.to_vanilla()
                } else {
                    Route::Native
                }
            },
            State::Vanilla | State::AwaitingCompile => self.to_vanilla(),
            State::Tracing => {
                if !self.function.tracing_busy && self.function.traced
                    < self.function.tracing_budget {
                    self.function.tracing_busy = true;
                    self.function.traced = self.function.traced + 1;
                    Route::Tracing
                } else {
                    self.to_vanilla()
                }
            },
            State::New => {
                self.function.state = State::Vanilla;
                self.to_vanilla()
            },
            State::Error | State::Shutdown => Route::Refused,
        }
    }

    /// Chooses the backend of a request to which the native trace has
    /// answered "unknown".
    pub fn native_unknown(&mut self) -> (res: Route)
        requires
            old(self).wf(),
        ensures
            final(self).wf(),
            final(self)@.autoscaler == old(self)@.autoscaler,
            (final(self)@.function, res) == old(self)@.function.unknown(),
    {
        if self.function.state == State::Decontainerized {
            if self.function.unknowns >= self.function.unknown_limit {
                self.function.awaiting_reset = true;
            }
            if self.function.unknowns < self.function.unknown_limit {
                self.function.unknowns = self.function.unknowns + 1;
            }
            self.to_vanilla()
        } else {
            self.invoke()
        }
    }

    /// Begins a new window of "unknown" answers.
    pub fn forget_unknowns(&mut self)
        requires
            old(self).wf(),
        ensures
            final(self).wf(),
            final(self)@.autoscaler == old(self)@.autoscaler,
            final(self)@.function == old(self)@.function.unknowns_forgotten(),
    {
        self.function.unknowns = 0;
    }

    /// Starts tracing where the function is served from its source and has
    /// no trace. Returns whether the tracing replica is to be created.
    pub fn start_tracing(&mut self) -> (res: bool)
        requires
            old(self).wf(),
        ensures
            final(self).wf(),
            final(self)@.autoscaler == old(self)@.autoscaler,
            (final(self)@.function, res) == old(self)@.function.tracing_started(),
    {
        if self.function.state == State::Vanilla && self.function.compile_status
            == CompileStatus::Vanilla && self.function.replicas_tracing == 0 {
            self.function.state = State::Tracing;
            self.function.replicas_tracing = 1;
            self.function.traced = 0;
            self.function.tracing_busy = false;
            true
        } else {
            false
        }
    }

    /// Whether the request rate is stable.
    pub fn is_rate_stable(&self) -> (res: bool)
        requires
            self.wf(),
        ensures
            res == self@.is_stable(),
    {
        self.autoscaler.is_steady(self.function.replicas_vanilla)
    }

    /// Starts tracing where the request rate is stable, the function is
    /// served from its source and it has no trace. Returns whether the
    /// tracing replica is to be created.
    pub fn trace_if_stable(&mut self) -> (res: bool)
        requires
            old(self).wf(),
        ensures
            final(self).wf(),
            (final(self)@, Outcome::Replica(res)) == old(self)@.applied(Command::TraceIfStable),
    {
        if self.is_rate_stable() {
            self.start_tracing()
        } else {
            false
        }
    }

    /// Notes that the request at the tracing replica has ended.
    pub fn traced_request_ended(&mut self)
        requires
            old(self).wf(),
        ensures
            final(self).wf(),
            final(self)@.autoscaler == old(self)@.autoscaler,
            final(self)@.function == old(self)@.function.traced_request_ended(),
    {
        self.function.tracing_busy = false;
    }

    /// Takes a trace of `trace_len` bytes from the tracing replica. Returns
    /// whether the trace goes to the compiler and the replica goes away.
    pub fn trace_captured(&mut self, trace_len: usize) -> (res: bool)
        requires
            old(self).wf(),
        ensures
            final(self).wf(),
            final(self)@.autoscaler == old(self)@.autoscaler,
            (final(self)@.function, res) == old(self)@.function.trace_captured(trace_len),
    {
        if self.function.state == State::Tracing && trace_len > 0 {
            self.function.state = State::AwaitingCompile;
            self.function.compile_status = CompileStatus::Compiling;
            self.function.replicas_tracing = 0;
            self.function.tracing_busy = false;
            true
        } else {
            false
        }
    }

    /// Gives tracing up. Returns whether the tracing replica is to be
    /// deleted.
    pub fn abort_tracing(&mut self) -> (res: bool)
        requires
            old(self).wf(),
        ensures
            final(self).wf(),
            final(self)@.autoscaler == old(self)@.autoscaler,
            (final(self)@.function, res) == old(self)@.function.tracing_aborted(),
    {
        if self.function.state == State::Tracing {
            self.function.state = State::Vanilla;
            self.function.replicas_tracing = 0;
            self.function.tracing_busy = false;
            true
        } else {
            false
        }
    }

    /// Takes the report of the compiler on the trace of the function.
    pub fn compile_reported(&mut self, ok: bool)
        requires
            old(self).wf(),
        ensures
            final(self).wf(),
            final(self)@.autoscaler == old(self)@.autoscaler,
            final(self)@.function == old(self)@.function.compile_reported(ok),
    {
        if self.function.state == State::AwaitingCompile {
            if ok {
                self.function.state = State::Decontainerized;
                self.function.compile_status = CompileStatus::Compiled;
                self.function.native_trace = true;
                self.function.awaiting_reset = false;
                self.function.unknowns = 0;
                self.function.idle_ticks = 0;
            } else {
                self.function.state = State::Error;
                self.function.compile_status = CompileStatus::Error;
            }
        }
    }

    /// Drops the trace and goes back to serving from the source.
    pub fn reset(&mut self)
        requires
            old(self).wf(),
        ensures
            final(self).wf(),
            final(self)@.autoscaler == old(self)@.autoscaler,
            final(self)@.function == old(self)@.function.reset(),
    {
        match self.function.state {
            State::Decontainerized => {
                self.function.state = State::Vanilla;
                self.function.compile_status = CompileStatus::Vanilla;
                self.function.native_trace = false;
                self.function.awaiting_reset = false;
                self.function.unknowns = 0;
                self.function.idle_ticks = 0;
                self.function.replicas_tracing = 0;
                if self.function.replicas_vanilla == 0 {
                    self.function.replicas_vanilla = 1;
                    self.function.cursor = 0;
                }
            },
            State::Tracing => {
                self.abort_tracing();
            },
            _ => {},
        }
    }

    /// Ends the manager and releases every replica.
    pub fn shutdown(&mut self)
        requires
            old(self).wf(),
        ensures
            final(self).wf(),
            final(self)@.autoscaler == old(self)@.autoscaler,
            final(self)@.function == old(self)@.function.shut_down(),
    {
        self.function.state = State::Shutdown;
        self.function.awaiting_reset = false;
        self.function.tracing_busy = false;
        self.function.replicas_vanilla = 0;
        self.function.replicas_tracing = 0;
        self.function.cursor = 0;
    }

    /// One tick of the autoscaler, in which `completed` requests ended at
    /// the replicas. Returns the number of replicas to patch the cluster to,
    /// where that changes.
    pub fn tick(&mut self, completed: usize) -> (res: Option<usize>)
        requires
            old(self).wf(),
        ensures
            final(self).wf(),
            final(self)@.autoscaler == old(self)@.autoscaler.sampled(completed),
            (final(self)@.function, res) == old(self)@.function.ticked(
                completed,
                final(self)@.autoscaler.target() as usize,
            ),
    {
        let wanted = self.autoscaler.tick(completed, self.function.replicas_vanilla);
        match self.function.state {
            State::Vanilla | State::Tracing | State::AwaitingCompile => {
                match wanted {
                    Some(target) => {
                        self.function.replicas_vanilla = target;
                        if self.function.cursor >= target {
                            self.function.cursor = 0;
                        }
                        Some(target)
                    },
                    None => None,
                }
            },
            State::Decontainerized => {
                if completed > 0 {
                    self.function.idle_ticks = 0;
                } else if self.function.idle_ticks < IDLE_TICKS {
                    self.function.idle_ticks = self.function.idle_ticks + 1;
                }
                if self.function.idle_ticks == IDLE_TICKS {
                    let change = self.function.replicas_vanilla != 0
                        || self.function.replicas_tracing != 0;
                    self.function.replicas_vanilla = 0;
                    self.function.replicas_tracing = 0;
                    self.function.cursor = 0;
                    if change {
                        Some(0)
                    } else {
                        None
                    }
                } else {
                    None
                }
            },
            State::New | State::Error | State::Shutdown => None,
        }
    }
}

impl FunctionManager {
    /// Does what `command` says, and returns what the caller is to do.
    pub fn apply(&mut self, command: Command) -> (res: Outcome)
        requires
            old(self).wf(),
        ensures
            final(self).wf(),
            (final(self)@, res) == old(self)@.applied(command),
    {
        match command {
            Command::Invoke => Outcome::Route(self.invoke()),
            Command::NativeUnknown => Outcome::Route(self.native_unknown()),
            Command::ForgetUnknowns => {
                self.forget_unknowns();
                Outcome::Done
            },
            Command::StartTracing => Outcome::Replica(self.start_tracing()),
            Command::TraceIfStable => Outcome::Replica(self.trace_if_stable()),
            Command::TracedRequestEnded => {
                self.traced_request_ended();
                Outcome::Done
            },
            Command::TraceCaptured { trace_len } => Outcome::Replica(self.trace_captured(trace_len)),
            Command::AbortTracing => Outcome::Replica(self.abort_tracing()),
            Command::CompileReported { ok } => {
                self.compile_reported(ok);
                Outcome::Done
            },
            Command::Reset => {
                self.reset();
                Outcome::Done
            },
            Command::Shutdown => {
                self.shutdown();
                Outcome::Done
            },
            Command::Tick { completed } => Outcome::Scale(self.tick(completed)),
        }
    }
}

/// One thing that happens to a function.
pub enum Step {
    Invoke,
    NativeUnknown,
    ForgetUnknowns,
    StartTracing,
    TracedRequestEnded,
    TraceCaptured { trace_len: usize },
    AbortTracing,
    CompileReported { ok: bool },
    Reset,
    Shutdown,
    Tick { completed: usize, target: usize },
}

impl Function {
    /// The function after `step`.
    pub open spec fn after(self, step: Step) -> Function {
        match step {
            Step::Invoke => self.invoked().0,
            Step::NativeUnknown => self.unknown().0,
            Step::ForgetUnknowns => self.unknowns_forgotten(),
            Step::StartTracing => self.tracing_started().0,
            Step::TracedRequestEnded => self.traced_request_ended(),
            Step::TraceCaptured { trace_len } => self.trace_captured(trace_len).0,
            Step::AbortTracing => self.tracing_aborted().0,
            Step::CompileReported { ok } => self.compile_reported(ok),
            Step::Reset => self.reset(),
            Step::Shutdown => self.shut_down(),
            Step::Tick { completed, target } => self.ticked(completed, target).0,
        }
    }

    /// The function after each of `steps` in turn.
    pub open spec fn after_all(self, steps: Seq<Step>) -> Function
        decreases steps.len(),
    {
        if steps.len() == 0 {
            self
        } else {
            self.after_all(steps.drop_last()).after(steps.last())
        }
    }

    /// Whether the route leads to a replica that runs the source.
    pub open spec fn is_vanilla(route: Route) -> bool {
        route is Vanilla || route is FirstReplica
    }
}

/// A manager is born well formed.
pub proof fn lemma_created_is_well_formed(
    mode: CreateMode,
    native_trace: bool,
    tracing_budget: usize,
    unknown_limit: usize,
)
    ensures
        Function::created(mode, native_trace, tracing_budget, unknown_limit).wf(),
{
}

/// No step breaks what holds of a function at all times.
pub proof fn lemma_step_keeps_well_formed(f: Function, step: Step)
    requires
        f.wf(),
    ensures
        f.after(step).wf(),
{
}

/// In every state that a function reaches, whatever happened to it, at most
/// one tracing replica runs, and a native trace is linked only where the
/// trace is compiled.
pub proof fn lemma_reachable_states(
    mode: CreateMode,
    native_trace: bool,
    tracing_budget: usize,
    unknown_limit: usize,
    steps: Seq<Step>,
)
    ensures
        ({
            let f = Function::created(mode, native_trace, tracing_budget, unknown_limit).after_all(
                steps,
            );
            &&& f.wf()
            &&& f.replicas_tracing == 0 || f.replicas_tracing == 1
            &&& f.native_trace ==> f.compile_status == CompileStatus::Compiled
        }),
    decreases steps.len(),
{
    let start = Function::created(mode, native_trace, tracing_budget, unknown_limit);
    lemma_created_is_well_formed(mode, native_trace, tracing_budget, unknown_limit);
    if steps.len() > 0 {
        lemma_reachable_states(
            mode,
            native_trace,
            tracing_budget,
            unknown_limit,
            steps.drop_last(),
        );
        lemma_step_keeps_well_formed(start.after_all(steps.drop_last()), steps.last());
    }
}

/// The route of a request by the state of the manager: natively only while
/// the trace serves; to the tracing replica only while tracing, one request
/// at a time and within the budget; to no backend in `Error` and `Shutdown`;
/// and to a replica that runs the source otherwise, in `AwaitingCompile` as
/// in `Vanilla`.
pub proof fn lemma_routes(f: Function)
    requires
        f.wf(),
    ensures
        f.invoked().1 is Native <==> f.state == State::Decontainerized && !f.awaiting_reset,
        f.invoked().1 is Tracing <==> f.state == State::Tracing && !f.tracing_busy && f.traced
            < f.tracing_budget,
        f.invoked().1 is Refused <==> f.state == State::Error || f.state == State::Shutdown,
        f.state == State::Vanilla || f.state == State::AwaitingCompile || f.state == State::New
            ==> Function::is_vanilla(f.invoked().1),
        f.invoked().1 matches Route::Vanilla { replica } ==> replica < f.replicas_vanilla,
        f.invoked().1 is FirstReplica ==> f.replicas_vanilla == 0 && f.invoked().0.replicas_vanilla
            == 1,
        f.state == State::New && !(f.invoked().1 is Refused) ==> f.invoked().0.state
            == State::Vanilla,
{
}

/// An "unknown" from the native trace never reaches the client: the request
/// is served by a replica that runs the source.
pub proof fn lemma_unknown_falls_back(f: Function)
    requires
        f.wf(),
        f.state == State::Decontainerized,
    ensures
        Function::is_vanilla(f.unknown().1),
        f.unknown().0.state == State::Decontainerized,
        f.unknowns >= f.unknown_limit ==> f.unknown().0.awaiting_reset,
{
}

/// After a reset the next request is served by a replica that runs the
/// source, in whatever state the reset found the manager, unless it had
/// failed or ended.
pub proof fn lemma_reset_then_invoke_is_vanilla(f: Function)
    requires
        f.wf(),
        f.state != State::Error,
        f.state != State::Shutdown,
    ensures
        Function::is_vanilla(f.reset().invoked().1),
        f.reset().invoked().0.state == State::Vanilla || f.state == State::AwaitingCompile,
        !f.reset().native_trace,
{
}

/// Create, invoke, reset, invoke: the second request is served, by a replica
/// that runs the source.
pub proof fn lemma_create_invoke_reset_invoke(tracing_budget: usize, unknown_limit: usize)
    ensures
        ({
            let created = Function::created(CreateMode::New, false, tracing_budget, unknown_limit);
            let (first, _) = created.invoked();
            let (second, route) = first.reset().invoked();
            &&& Function::is_vanilla(route)
            &&& second.state == State::Vanilla
        }),
{
}

impl Function {
    /// The function after one tick without a request to a replica for each
    /// of `targets`, which are what the autoscaler asks for in those ticks.
    pub open spec fn idled(self, targets: Seq<usize>) -> Function
        decreases targets.len(),
    {
        if targets.len() == 0 {
            self
        } else {
            self.idled(targets.drop_last()).ticked(0, targets.last()).0
        }
    }
}

/// A function that is served natively runs on no replica once `IDLE_TICKS`
/// seconds have gone by without a request to one.
pub proof fn lemma_idle_function_gives_up_replicas(f: Function, targets: Seq<usize>)
    requires
        f.wf(),
        f.state == State::Decontainerized,
    ensures
        f.idled(targets).wf(),
        f.idled(targets).state == State::Decontainerized,
        f.idled(targets).idle_ticks >= f.idle_ticks,
        f.idled(targets).idle_ticks >= targets.len() || f.idled(targets).idle_ticks == IDLE_TICKS,
        targets.len() >= IDLE_TICKS ==> f.idled(targets).replicas_vanilla == 0 && f.idled(
            targets,
        ).replicas_tracing == 0,
    decreases targets.len(),
{
    if targets.len() > 0 {
        lemma_idle_function_gives_up_replicas(f, targets.drop_last());
    }
}

} // verus!
