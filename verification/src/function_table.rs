//! The function table: the one registry of the managers of a process.
//!
//! The table owns the managers. It adopts the functions that it finds
//! running when the process starts, hands each request to the manager of its
//! function, and sees to it that a function is looked up in the storage by
//! one caller only, however many ask for it at once.
use crate::error::{cluster_failure, storage_probe_result, ErrorKind};
use crate::function_manager::{
    Command, CreateMode, Function, FunctionManager, Limits, ManagerState, Outcome, Route,
};
use crate::name_map::NameMap;
use crate::names::{
    function_name_of_replica_set, function_of_replica_set, is_function_name,
    lemma_function_name_has_no_line_feed, lemma_replica_set_names_round_trip, replica_set_of,
    texts, tracing_pod_name, tracing_pod_of,
};
use vstd::prelude::*;
use vstd::string::*;

verus! {

/// A replica set as the cluster reports it.
#[derive(Debug)]
pub struct ReplicaSnapshot {
    pub name: String,
    /// How many replicas the replica set asks for.
    pub replicas: i32,
    /// How many replicas run.
    pub running: i32,
    pub labels: Vec<(String, String)>,
}

/// What adoption reads of a replica set.
pub struct SnapshotView {
    pub name: Seq<char>,
    pub replicas: i32,
}

impl View for ReplicaSnapshot {
    type V = SnapshotView;

    open spec fn view(&self) -> SnapshotView {
        SnapshotView { name: self.name@, replicas: self.replicas }
    }
}

/// What adoption reads of each of `snapshots`.
pub open spec fn snapshot_views(snapshots: Seq<ReplicaSnapshot>) -> Seq<SnapshotView> {
    Seq::new(snapshots.len(), |i: int| snapshots[i]@)
}

/// The answer to a caller who asks for the manager of a function.
#[derive(PartialEq, Eq, Structural, Clone, Copy, Debug)]
pub enum Lookup {
    /// The table holds the manager.
    Found,
    /// The table holds no manager, and nobody is asking the storage: the
    /// caller is to ask it, and to report with `finish_get`.
    Probe,
    /// The table holds no manager, and another caller is asking the storage:
    /// the caller is to wait for that answer.
    Wait,
}

/// The table as contracts see it.
#[verifier::ext_equal]
pub struct TableState {
    /// The managers by the names of their functions.
    pub functions: Map<Seq<char>, ManagerState>,
    /// The functions for which a caller is asking the storage.
    pub probing: Set<Seq<char>>,
    /// The functions whose native trace is linked into this process.
    pub native: Set<Seq<char>>,
    /// Whether a new dispatcher is being rolled out.
    pub upgrade_pending: bool,
    /// The knobs that every manager of the table is made with.
    pub limits: Limits,
}

impl TableState {
    /// The table after the adoption of the replica set `snapshot`, with
    /// `pods` the names of the pods that run. A replica set that belongs to
    /// a function gives the function a manager in place of any that it had:
    /// one that adopts the replicas asked for, and that is tracing if the
    /// tracing pod of the replica set runs. Any other replica set is passed
    /// over.
    pub open spec fn adopt(self, snapshot: SnapshotView, pods: Seq<Seq<char>>) -> TableState {
        match function_of_replica_set(snapshot.name) {
            None => self,
            Some(name) => TableState {
                functions: self.functions.insert(
                    name,
                    ManagerState::created(
                        CreateMode::Adopt {
                            num_replicas: snapshot.replicas,
                            is_tracing: pods.contains(tracing_pod_of(snapshot.name)),
                        },
                        self.native.contains(name),
                        self.limits,
                    ),
                ),
                ..self
            },
        }
    }

    /// The table after the adoption of each of `snapshots` in turn.
    pub open spec fn adopt_all(self, snapshots: Seq<SnapshotView>, pods: Seq<Seq<char>>) -> TableState
        decreases snapshots.len(),
    {
        if snapshots.len() == 0 {
            self
        } else {
            self.adopt_all(snapshots.drop_last(), pods).adopt(snapshots.last(), pods)
        }
    }

    /// The answer to a caller who asks for `name`, and the table after it.
    pub open spec fn begin_get(self, name: Seq<char>) -> (TableState, Lookup) {
        if self.functions.contains_key(name) {
            (self, Lookup::Found)
        } else if self.probing.contains(name) {
            (self, Lookup::Wait)
        } else {
            (TableState { probing: self.probing.insert(name), ..self }, Lookup::Probe)
        }
    }

    /// The table after the manager of `name` has been told `command`, and
    /// what the caller is to do; `None` where the function has no manager.
    pub open spec fn applied(self, name: Seq<char>, command: Command) -> (
        TableState,
        Option<Outcome>,
    ) {
        if self.functions.contains_key(name) {
            (
                TableState {
                    functions: self.functions.insert(
                        name,
                        self.functions[name].applied(command).0,
                    ),
                    ..self
                },
                Some(self.functions[name].applied(command).1),
            )
        } else {
            (self, None)
        }
    }

    /// The table after the storage has answered the probe for `name` with
    /// `status`. The probe is over. Where the storage has the function and
    /// the table has no manager for it, the function gets a new one.
    pub open spec fn finish_get(self, name: Seq<char>, status: u16) -> TableState {
        TableState {
            probing: self.probing.remove(name),
            functions: if cluster_failure(status) is None && !self.functions.contains_key(name) {
                self.functions.insert(
                    name,
                    ManagerState::created(
                        CreateMode::New,
                        self.native.contains(name),
                        self.limits,
                    ),
                )
            } else {
                self.functions
            },
            ..self
        }
    }
}

/// The function table.
pub struct FunctionTable {
    functions: NameMap<FunctionManager>,
    probing: NameMap<bool>,
    decontainerized_functions: Vec<String>,
    upgrade_pending: bool,
    limits: Limits,
}

impl View for FunctionTable {
    type V = TableState;

    closed spec fn view(&self) -> TableState {
        TableState {
            functions: self.functions@.map_values(|manager: FunctionManager| manager@),
            probing: self.probing@.dom(),
            native: texts(self.decontainerized_functions@).to_set(),
            upgrade_pending: self.upgrade_pending,
            limits: self.limits,
        }
    }
}

fn holds(names: &Vec<String>, name: &str) -> (res: bool)
    ensures
        res == texts(names@).contains(name@),
{
    let key = String::from_str(name);
    let mut i: usize = 0;
    while i < names.len()
        invariant
            i <= names.len(),
            key@ == name@,
            forall|j: int| 0 <= j < i ==> texts(names@)[j] != name@,
        decreases names.len() - i,
    {
        if names[i] == key {
            assert(texts(names@)[i as int] == name@);
            return true;
        }
        i += 1;
    }
    false
}

impl FunctionTable {
    /// Every table that this module hands out is well formed, and so is
    /// every manager in it.
    pub closed spec fn wf(&self) -> bool {
        &&& self.functions.wf()
        &&& self.probing.wf()
        &&& self.limits.valid()
        &&& forall|name: Seq<char>| #[trigger]
            self.functions@.contains_key(name) ==> self.functions@[name].wf()
    }

    /// A table without managers, for a process into which the native traces
    /// of `decontainerized_functions` are linked.
    pub fn new(decontainerized_functions: Vec<String>, limits: Limits) -> (res: FunctionTable)
        requires
            limits.valid(),
        ensures
            res.wf(),
            res@ == (TableState {
                functions: Map::empty(),
                probing: Set::empty(),
                native: texts(decontainerized_functions@).to_set(),
                upgrade_pending: false,
                limits,
            }),
    {
        let res = FunctionTable {
            functions: NameMap::new(),
            probing: NameMap::new(),
            decontainerized_functions,
            upgrade_pending: false,
            limits,
        };
        assert(res@.functions =~= Map::<Seq<char>, ManagerState>::empty());
        assert(res@.probing =~= Set::<Seq<char>>::empty());
        res
    }

    /// Whether a new dispatcher is being rolled out.
    pub fn upgrade_pending(&self) -> (res: bool)
        ensures
            res == self@.upgrade_pending,
    {
        self.upgrade_pending
    }

    /// Notes that the rollout of a new dispatcher has begun or ended.
    pub fn set_upgrade_pending(&mut self, pending: bool)
        requires
            old(self).wf(),
        ensures
            final(self).wf(),
            final(self)@ == (TableState { upgrade_pending: pending, ..old(self)@ }),
    {
        self.upgrade_pending = pending;
    }

    /// Whether the table holds a manager for `name`.
    pub fn function_manager_exists(&self, name: &str) -> (res: bool)
        requires
            self.wf(),
        ensures
            res == self@.functions.contains_key(name@),
    {
        self.functions.contains(name)
    }

    /// Whether the native trace of `name` is linked into this process.
    pub fn has_native_trace(&self, name: &str) -> (res: bool)
        ensures
            res == self@.native.contains(name@),
    {
        holds(&self.decontainerized_functions, name)
    }

    /// The function `name` as its manager knows it, if it has a manager.
    pub fn function(&self, name: &str) -> (res: Option<Function>)
        requires
            self.wf(),
        ensures
            res == if self@.functions.contains_key(name@) {
                Some(self@.functions[name@].function)
            } else {
                None::<Function>
            },
    {
        match self.functions.get(name) {
            Some(manager) => Some(manager.function()),
            None => None,
        }
    }

    fn put(&mut self, name: String, manager: FunctionManager)
        requires
            old(self).wf(),
            manager.wf(),
        ensures
            final(self).wf(),
            final(self)@ == (TableState {
                functions: old(self)@.functions.insert(name@, manager@),
                ..old(self)@
            }),
    {
        self.functions.insert(name, manager);
        assert(self@.functions =~= old(self)@.functions.insert(name@, manager@));
    }

    /// Adopts the functions that run in the cluster: one manager for each of
    /// `replica_sets` that belongs to a function, in turn. `pods` are the
    /// names of the pods that run.
    pub fn adopt_running_functions(&mut self, replica_sets: &Vec<ReplicaSnapshot>, pods: &Vec<String>)
        requires
            old(self).wf(),
        ensures
            final(self).wf(),
            final(self)@ == old(self)@.adopt_all(snapshot_views(replica_sets@), texts(pods@)),
    {
        let ghost snapshots = snapshot_views(replica_sets@);
        let ghost running = texts(pods@);
        let ghost start = self@;
        let mut i: usize = 0;
        assert(snapshots.subrange(0, 0) =~= Seq::<SnapshotView>::empty());
        while i < replica_sets.len()
            invariant
                self.wf(),
                i <= replica_sets.len(),
                snapshots == snapshot_views(replica_sets@),
                running == texts(pods@),
                self@ == start.adopt_all(snapshots.subrange(0, i as int), running),
            decreases replica_sets.len() - i,
        {
            let snapshot = &replica_sets[i];
            let ghost before = self@;
            proof {
                let upto = snapshots.subrange(0, i + 1);
                assert(upto.drop_last() =~= snapshots.subrange(0, i as int));
                assert(upto.last() == snapshot@);
            }
            match function_name_of_replica_set(snapshot.name.as_str()) {
                None => {},
                Some(name) => {
                    let pod = tracing_pod_name(snapshot.name.as_str());
                    let is_tracing = holds(pods, pod.as_str());
                    let native_trace = self.has_native_trace(name.as_str());
                    let manager = FunctionManager::new(
                        CreateMode::Adopt { num_replicas: snapshot.replicas, is_tracing },
                        native_trace,
                        self.limits,
                    );
                    self.put(name, manager);
                },
            }
            assert(self@ == before.adopt(snapshot@, running));
            i += 1;
        }
        assert(snapshots.subrange(0, replica_sets.len() as int) =~= snapshots);
    }

    /// Takes the manager of `name` out of the table. Returns the function as
    /// the manager knew it, for the caller to release its replicas, or
    /// `None` where the table held no such manager.
    pub fn shutdown(&mut self, name: &str) -> (res: Option<Function>)
        requires
            old(self).wf(),
        ensures
            final(self).wf(),
            final(self)@ == (TableState {
                functions: old(self)@.functions.remove(name@),
                ..old(self)@
            }),
            res == if old(self)@.functions.contains_key(name@) {
                Some(old(self)@.functions[name@].function)
            } else {
                None::<Function>
            },
    {
        let removed = self.functions.remove(name);
        assert(self@.functions =~= old(self)@.functions.remove(name@));
        match removed {
            Some(manager) => Some(manager.function()),
            None => None,
        }
    }

    /// Lets go of every manager, and leaves the replicas as they are.
    /// Returns the names of the functions that had a manager, each once.
    pub fn orphan(&mut self) -> (res: Vec<String>)
        requires
            old(self).wf(),
        ensures
            final(self).wf(),
            final(self)@ == (TableState { functions: Map::empty(), ..old(self)@ }),
            texts(res@).no_duplicates(),
            texts(res@).to_set() == old(self)@.functions.dom(),
    {
        let n = self.functions.size();
        let ghost keys = self.functions.keys();
        let mut names: Vec<String> = Vec::new();
        let mut i: usize = 0;
        while i < n
            invariant
                self.wf(),
                i <= n,
                n == keys.len(),
                keys == self.functions.keys(),
                names.len() == i,
                texts(names@) == keys.subrange(0, i as int),
            decreases n - i,
        {
            let name = self.functions.key_at(i).clone();
            let ghost earlier = names@;
            names.push(name);
            proof {
                assert forall|j: int| 0 <= j < i + 1 implies texts(names@)[j] == keys[j] by {
                    if j < i {
                        assert(names@[j] == earlier[j]);
                        assert(texts(earlier)[j] == keys.subrange(0, i as int)[j]);
                    }
                }
                assert(texts(names@) =~= keys.subrange(0, i + 1));
            }
            i += 1;
        }
        proof {
            assert(keys.subrange(0, n as int) =~= keys);
            assert(texts(names@).to_set() =~= old(self)@.functions.dom()) by {
                assert forall|name: Seq<char>|
                    texts(names@).to_set().contains(name) <==> old(self)@.functions.dom().contains(
                        name,
                    ) by {
                    assert(keys.contains(name) <==> self.functions@.contains_key(name));
                }
            }
        }
        self.functions.clear();
        assert(self@.functions =~= Map::<Seq<char>, ManagerState>::empty());
        names
    }

    /// Answers a caller who asks for the manager of `name`. The first to ask
    /// for a function that has no manager is sent to the storage; who asks
    /// while that probe is under way is told to wait.
    pub fn begin_get(&mut self, name: &str) -> (res: Lookup)
        requires
            old(self).wf(),
        ensures
            final(self).wf(),
            (final(self)@, res) == old(self)@.begin_get(name@),
    {
        if self.functions.contains(name) {
            Lookup::Found
        } else if self.probing.contains(name) {
            Lookup::Wait
        } else {
            self.probing.insert(String::from_str(name), true);
            assert(self@.probing =~= old(self)@.probing.insert(name@));
            Lookup::Probe
        }
    }

    /// Takes the answer of the storage to the probe for `name`, which came
    /// with the HTTP status `status`. Where the storage has the function, the
    /// function has a manager from now on; else the kind of the failure is
    /// returned.
    pub fn finish_get(&mut self, name: &str, status: u16) -> (res: Result<(), ErrorKind>)
        requires
            old(self).wf(),
        ensures
            final(self).wf(),
            final(self)@ == old(self)@.finish_get(name@, status),
            res == match cluster_failure(status) {
                None => Ok::<(), ErrorKind>(()),
                Some(kind) => Err::<(), ErrorKind>(kind),
            },
    {
        self.probing.remove(name);
        assert(self@.probing =~= old(self)@.probing.remove(name@));
        let found = storage_probe_result(status);
        if found.is_ok() && !self.functions.contains(name) {
            let manager = FunctionManager::new(
                CreateMode::New,
                self.has_native_trace(name),
                self.limits,
            );
            self.put(String::from_str(name), manager);
        }
        found
    }

    /// Hands `command` to the manager of `name`, and returns what the caller
    /// is to do; `None` where the function has no manager.
    pub fn apply(&mut self, name: &str, command: Command) -> (res: Option<Outcome>)
        requires
            old(self).wf(),
        ensures
            final(self).wf(),
            (final(self)@, res) == old(self)@.applied(name@, command),
    {
        let ghost before = self@;
        match self.functions.remove(name) {
            None => {
                assert(self@.functions =~= before.functions);
                None
            },
            Some(manager) => {
                let mut manager = manager;
                let outcome = manager.apply(command);
                self.functions.insert(String::from_str(name), manager);
                proof {
                    assert(self@.functions =~= before.functions.insert(
                        name@,
                        before.functions[name@].applied(command).0,
                    ));
                }
                Some(outcome)
            },
        }
    }

    /// Routes a request for `name`: the manager of the function chooses the
    /// backend. `None` where the function has no manager.
    pub fn invoke(&mut self, name: &str) -> (res: Option<Route>)
        requires
            old(self).wf(),
        ensures
            final(self).wf(),
            final(self)@ == old(self)@.applied(name@, Command::Invoke).0,
            res == if old(self)@.functions.contains_key(name@) {
                Some(old(self)@.functions[name@].function.invoked().1)
            } else {
                None::<Route>
            },
    {
        match self.apply(name, Command::Invoke) {
            Some(Outcome::Route(route)) => Some(route),
            _ => None,
        }
    }
}

/// However many callers ask for a function at once, one of them is sent to
/// the storage, and the others wait: while a probe for `name` is under way,
/// no caller who asks for `name` is told to probe, and the first who asks
/// for a function without a manager puts the probe under way.
pub proof fn lemma_one_probe_at_a_time(s: TableState, name: Seq<char>)
    ensures
        s.probing.contains(name) ==> s.begin_get(name).1 != Lookup::Probe,
        s.begin_get(name).1 == Lookup::Probe ==> s.begin_get(name).0.probing.contains(name)
            && s.begin_get(name).0.begin_get(name).1 == Lookup::Wait,
        s.begin_get(name).1 != Lookup::Probe ==> s.begin_get(name).0 == s,
        s.begin_get(name).0.functions == s.functions,
{
}

/// All who asked for a function see the same manager: once the storage has
/// answered that it has the function, whoever asks finds a manager, and the
/// probe neither replaces a manager that was there nor touches another one.
pub proof fn lemma_probe_gives_one_manager(s: TableState, name: Seq<char>, status: u16)
    requires
        cluster_failure(status) is None,
    ensures
        s.finish_get(name, status).begin_get(name).1 == Lookup::Found,
        s.functions.contains_key(name) ==> s.finish_get(name, status).functions == s.functions,
        forall|other: Seq<char>|
            other != name ==> (s.finish_get(name, status).functions.contains_key(other)
                <==> s.functions.contains_key(other)),
        !s.finish_get(name, status).probing.contains(name),
{
    if s.functions.contains_key(name) {
        assert(s.finish_get(name, status).functions =~= s.functions);
    }
}

/// Adoption brings back the managers that were let go. Let every function
/// of `names` have its replica set in the cluster, as `orphan` leaves them,
/// and let `snapshots` be those replica sets. Then a table without managers
/// that adopts `snapshots` holds a manager for each of `names` and for no
/// other function.
pub proof fn lemma_adoption_restores_orphans(
    s: TableState,
    names: Seq<Seq<char>>,
    snapshots: Seq<SnapshotView>,
    pods: Seq<Seq<char>>,
)
    requires
        s.functions == Map::<Seq<char>, ManagerState>::empty(),
        names.len() == snapshots.len(),
        forall|i: int| 0 <= i < names.len() ==> !(#[trigger] names[i]).contains('\n'),
        forall|i: int|
            0 <= i < names.len() ==> (#[trigger] snapshots[i]).name == replica_set_of(names[i]),
    ensures
        s.adopt_all(snapshots, pods).functions.dom() == names.to_set(),
    decreases names.len(),
{
    if names.len() == 0 {
        assert(s.adopt_all(snapshots, pods).functions.dom() =~= names.to_set());
    } else {
        let front = names.drop_last();
        let earlier = snapshots.drop_last();
        assert forall|i: int| 0 <= i < front.len() implies (#[trigger] earlier[i]).name
            == replica_set_of(front[i]) by {
            assert(earlier[i] == snapshots[i]);
            assert(front[i] == names[i]);
        }
        assert forall|i: int| 0 <= i < front.len() implies !(#[trigger] front[i]).contains('\n') by {
            assert(front[i] == names[i]);
        }
        lemma_adoption_restores_orphans(s, front, earlier, pods);
        let middle = s.adopt_all(earlier, pods);
        let last = names.last();
        assert(snapshots.last() == snapshots[names.len() - 1]);
        assert(last == names[names.len() - 1]);
        lemma_replica_set_names_round_trip(last);
        assert(function_of_replica_set(snapshots.last().name) == Some(last));
        let end = middle.adopt(snapshots.last(), pods);
        assert(end.functions.dom() =~= middle.functions.dom().insert(last));
        assert(names.to_set() =~= front.to_set().insert(last)) by {
            assert forall|name: Seq<char>| names.to_set().contains(name) <==> front.to_set().insert(
                last,
            ).contains(name) by {
                if names.contains(name) {
                    let i = choose|i: int| 0 <= i < names.len() && names[i] == name;
                    if i < front.len() {
                        assert(front[i] == name);
                    }
                }
                if front.contains(name) {
                    let i = choose|i: int| 0 <= i < front.len() && front[i] == name;
                    assert(names[i] == name);
                }
            }
        }
    }
}

/// Adoption brings back the managers of functions: what
/// `lemma_adoption_restores_orphans` says holds of every set of function
/// names.
pub proof fn lemma_adoption_restores_functions(
    s: TableState,
    names: Seq<Seq<char>>,
    snapshots: Seq<SnapshotView>,
    pods: Seq<Seq<char>>,
)
    requires
        s.functions == Map::<Seq<char>, ManagerState>::empty(),
        names.len() == snapshots.len(),
        forall|i: int| 0 <= i < names.len() ==> is_function_name(#[trigger] names[i]),
        forall|i: int|
            0 <= i < names.len() ==> (#[trigger] snapshots[i]).name == replica_set_of(names[i]),
    ensures
        s.adopt_all(snapshots, pods).functions.dom() == names.to_set(),
{
    assert forall|i: int| 0 <= i < names.len() implies !(#[trigger] names[i]).contains('\n') by {
        lemma_function_name_has_no_line_feed(names[i]);
    }
    lemma_adoption_restores_orphans(s, names, snapshots, pods);
}

} // verus!
