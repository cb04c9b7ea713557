//! The registry of running instances, and the decisions behind creating,
//! starting, stopping and deleting servers.
//!
//! Spawning processes and touching the file system happen outside this
//! module. Each operation here takes what the caller found out (whether a
//! directory exists, how a spawn went, what a probe saw) and answers with
//! what is to be done and with the new contents of the registry.

use crate::console::texts;
use crate::error::{is_not_running, outcome, Error, ErrorView};
use crate::instance::{
    alive, coherent, finish_step, spawned, stop_step, winding_down, Instance, InstanceView, Probe,
    ProbeView, State,
};
use crate::readiness::{standard_readiness, Readiness, ReadinessView};
use crate::text::{decimal, decimal_digits, join_path, path_under, same_text};
use vstd::prelude::*;
use vstd::string::*;

verus! {

/// How to launch a server's process.
#[derive(Debug, PartialEq, Eq)]
pub struct LaunchPlan {
    /// The executable to run.
    pub program: String,
    /// Its arguments, in order.
    pub arguments: Vec<String>,
    /// The directory to run it in.
    pub directory: String,
}

/// A launch plan as contracts speak of it.
pub ghost struct LaunchPlanView {
    pub program: Seq<char>,
    pub arguments: Seq<Seq<char>>,
    pub directory: Seq<char>,
}

impl View for LaunchPlan {
    type V = LaunchPlanView;

    open spec fn view(&self) -> LaunchPlanView {
        LaunchPlanView {
            program: self.program@,
            arguments: texts(self.arguments@),
            directory: self.directory@,
        }
    }
}

/// A copy to be made in the file system.
#[derive(Debug, PartialEq, Eq)]
pub struct CopyPlan {
    /// The path to copy from.
    pub from: String,
    /// The path to copy to.
    pub to: String,
}

/// A copy plan as contracts speak of it.
pub ghost struct CopyPlanView {
    pub from: Seq<char>,
    pub to: Seq<char>,
}

impl View for CopyPlan {
    type V = CopyPlanView;

    open spec fn view(&self) -> CopyPlanView {
        CopyPlanView { from: self.from@, to: self.to@ }
    }
}

/// How an attempt to spawn a process went.
#[derive(Debug, PartialEq, Eq)]
pub enum Spawn {
    /// The process could not be launched; the text says why.
    Failed(String),
    /// The process runs. The flags tell whether its output and its input
    /// could be taken hold of.
    Started { stdout: bool, stdin: bool },
}

/// A spawn as contracts speak of it.
pub ghost enum SpawnView {
    Failed(Seq<char>),
    Started { stdout: bool, stdin: bool },
}

impl View for Spawn {
    type V = SpawnView;

    open spec fn view(&self) -> SpawnView {
        match *self {
            Spawn::Failed(a) => SpawnView::Failed(a@),
            Spawn::Started { stdout, stdin } => SpawnView::Started { stdout, stdin },
        }
    }
}

/// A manager as contracts speak of it.
pub ghost struct ManagerView {
    /// The directory that holds one working directory per server.
    pub server_files: Seq<char>,
    /// The directory that holds one template directory per version.
    pub version_templates: Seq<char>,
    /// The handshake that every new instance is given.
    pub readiness: ReadinessView,
    /// The registered instances, each under its id.
    pub instances: Map<Seq<char>, InstanceView>,
}

/// The name of the runnable artifact inside a working directory or a
/// template directory.
pub open spec fn artifact_name() -> Seq<char> {
    "server.jar"@
}

/// The working directory of a server.
pub open spec fn server_dir(m: ManagerView, id: Seq<char>) -> Seq<char> {
    path_under(m.server_files, id)
}

/// The template directory of a version.
pub open spec fn version_dir(m: ManagerView, version: Seq<char>) -> Seq<char> {
    path_under(m.version_templates, version)
}

/// The command line of a server: a Java virtual machine with between one and
/// four gigabytes of heap, running the artifact without a window on the given
/// port, inside the server's working directory.
pub open spec fn launch_plan(m: ManagerView, id: Seq<char>, port: u32) -> LaunchPlanView {
    LaunchPlanView {
        program: "java"@,
        arguments: seq![
            "-Xmx4G"@,
            "-Xms1G"@,
            "-jar"@,
            artifact_name(),
            "nogui"@,
            "--port"@,
            decimal_digits(port as nat),
        ],
        directory: server_dir(m, id),
    }
}

/// Whether a server may be started: its files must be there, and it must not
/// be registered.
pub open spec fn start_check(m: ManagerView, id: Seq<char>, files_exist: bool) -> Result<
    (),
    ErrorView,
> {
    if !files_exist {
        Err(ErrorView::ServerFilesMissing)
    } else if m.instances.dom().contains(id) {
        Err(ErrorView::ServerAlreadyOnline)
    } else {
        Ok(())
    }
}

/// Registering a spawned process. Nothing is registered under an id that is
/// taken, for a process that could not be launched, whose output or input
/// could not be taken hold of, or that is gone already. Otherwise a new
/// instance stands under the id, and the port is handed back.
pub open spec fn register_step(
    m: ManagerView,
    id: Seq<char>,
    port: u32,
    spawn: SpawnView,
    probe: ProbeView,
) -> (ManagerView, Result<u32, ErrorView>) {
    if m.instances.dom().contains(id) {
        (m, Err(ErrorView::ServerAlreadyOnline))
    } else {
        match spawn {
            SpawnView::Failed(a) => (m, Err(ErrorView::IoError(a))),
            SpawnView::Started { stdout, stdin } => {
                if !stdout {
                    (m, Err(ErrorView::ThreadError("stdout"@)))
                } else if !stdin {
                    (m, Err(ErrorView::ThreadError("stdin"@)))
                } else {
                    match alive(probe) {
                        Err(e) => (m, Err(e)),
                        Ok(_) => (
                            ManagerView {
                                instances: m.instances.insert(id, spawned(id, port, m.readiness)),
                                ..m
                            },
                            Ok(port),
                        ),
                    }
                }
            },
        }
    }
}

/// Beginning the shutdown of a server. An unregistered server is offline;
/// a registered one begins shutdown as an instance does.
pub open spec fn stop_at(m: ManagerView, id: Seq<char>, probe: ProbeView) -> (
    ManagerView,
    Result<(), ErrorView>,
) {
    if !m.instances.dom().contains(id) {
        (m, Err(ErrorView::ServerOffline))
    } else {
        let (inst, r) = stop_step(m.instances[id], probe);
        (ManagerView { instances: m.instances.insert(id, inst), ..m }, r)
    }
}

/// Completing the shutdown of a server. An unregistered server is offline.
/// A registered one completes shutdown as an instance does; if that leaves
/// it terminated, it leaves the registry.
pub open spec fn finish_at(m: ManagerView, id: Seq<char>) -> (ManagerView, Result<(), ErrorView>) {
    if !m.instances.dom().contains(id) {
        (m, Err(ErrorView::ServerOffline))
    } else {
        let (inst, r) = finish_step(m.instances[id]);
        if inst.state is Terminated {
            (ManagerView { instances: m.instances.remove(id), ..m }, r)
        } else {
            (m, r)
        }
    }
}

/// A server is online to callers when it is registered, shutdown has not
/// begun, and the probe shows its process running.
pub open spec fn online(m: ManagerView, id: Seq<char>, probe: ProbeView) -> bool {
    &&& m.instances.dom().contains(id)
    &&& !winding_down(m.instances[id].state)
    &&& probe is Running
}

/// What is left of the result of a stop that was only tried for good
/// measure: that the server was not running is no failure.
pub open spec fn best_effort(stopped: Result<(), ErrorView>) -> Result<(), ErrorView> {
    match stopped {
        Ok(_) => Ok(()),
        Err(e) => if is_not_running(e) {
            Ok(())
        } else {
            Err(e)
        },
    }
}

/// Creating a server: its working directory must not exist yet, and is to be
/// copied from the version's template directory.
pub open spec fn create_plan(
    m: ManagerView,
    id: Seq<char>,
    version: Seq<char>,
    dir_exists: bool,
) -> Result<CopyPlanView, ErrorView> {
    if dir_exists {
        Err(ErrorView::ServerAlreadyExists)
    } else {
        Ok(CopyPlanView { from: version_dir(m, version), to: server_dir(m, id) })
    }
}

/// Deleting a server, after a stop tried for good measure: a failure of the
/// stop other than that the server was not running stands; the working
/// directory must exist, and is to be removed.
pub open spec fn delete_plan(
    m: ManagerView,
    id: Seq<char>,
    stopped: Result<(), ErrorView>,
    dir_exists: bool,
) -> Result<Seq<char>, ErrorView> {
    match best_effort(stopped) {
        Err(e) => Err(e),
        Ok(_) => if !dir_exists {
            Err(ErrorView::ServerFilesMissing)
        } else {
            Ok(server_dir(m, id))
        },
    }
}

/// Switching a server to another version, after a stop tried for good
/// measure: a failure of the stop other than that the server was not running
/// stands; the working directory must exist, and its artifact is to be
/// replaced by the one of the version's template directory.
pub open spec fn version_plan(
    m: ManagerView,
    id: Seq<char>,
    version: Seq<char>,
    stopped: Result<(), ErrorView>,
    dir_exists: bool,
) -> Result<CopyPlanView, ErrorView> {
    match best_effort(stopped) {
        Err(e) => Err(e),
        Ok(_) => if !dir_exists {
            Err(ErrorView::ServerFilesMissing)
        } else {
            Ok(
                CopyPlanView {
                    from: path_under(version_dir(m, version), artifact_name()),
                    to: path_under(server_dir(m, id), artifact_name()),
                },
            )
        },
    }
}

/// Owns the running instances, each under its id, and knows where the
/// servers' files and the version templates are kept.
pub struct Manager {
    server_files: String,
    version_templates: String,
    readiness: Readiness,
    instances: Vec<Instance>,
}

spec fn held_at(v: Seq<Instance>, id: Seq<char>, i: int) -> bool {
    0 <= i < v.len() && v[i]@.id == id
}

spec fn registry(v: Seq<Instance>) -> Map<Seq<char>, InstanceView> {
    Map::new(
        |id: Seq<char>| exists|i: int| held_at(v, id, i),
        |id: Seq<char>| v[choose|i: int| held_at(v, id, i)]@,
    )
}

spec fn distinct(v: Seq<Instance>) -> bool {
    forall|i: int, j: int| 0 <= i < j < v.len() ==> v[i]@.id != v[j]@.id
}

proof fn lemma_registry_at(v: Seq<Instance>, i: int)
    requires
        distinct(v),
        0 <= i < v.len(),
    ensures
        registry(v).dom().contains(v[i]@.id),
        registry(v)[v[i]@.id] == v[i]@,
{
    let id = v[i]@.id;
    assert(held_at(v, id, i));
    let k = choose|k: int| held_at(v, id, k);
    assert(k == i) by {
        if k < i {
            assert(v[k]@.id != v[i]@.id);
        } else if i < k {
            assert(v[i]@.id != v[k]@.id);
        }
    }
}

proof fn lemma_registry_absent(v: Seq<Instance>, id: Seq<char>)
    requires
        forall|i: int| 0 <= i < v.len() ==> v[i]@.id != id,
    ensures
        !registry(v).dom().contains(id),
{
    assert forall|i: int| !held_at(v, id, i) by {}
}

proof fn lemma_registry_push(v: Seq<Instance>, x: Instance)
    requires
        distinct(v),
        !registry(v).dom().contains(x@.id),
    ensures
        distinct(v.push(x)),
        registry(v.push(x)) == registry(v).insert(x@.id, x@),
{
    let w = v.push(x);
    assert forall|i: int, j: int| 0 <= i < j < w.len() implies w[i]@.id != w[j]@.id by {
        if j == v.len() {
            assert(held_at(v, v[i]@.id, i));
        }
    }
    assert forall|id: Seq<char>|
        registry(w).dom().contains(id) <==> registry(v).insert(x@.id, x@).dom().contains(id) by {
        if registry(w).dom().contains(id) {
            let i = choose|i: int| held_at(w, id, i);
            if i < v.len() {
                assert(held_at(v, id, i));
            }
        }
        if registry(v).dom().contains(id) {
            let i = choose|i: int| held_at(v, id, i);
            assert(held_at(w, id, i));
        }
        if id == x@.id {
            assert(held_at(w, id, v.len() as int));
        }
    }
    assert forall|id: Seq<char>| registry(w).dom().contains(id) implies registry(w)[id]
        == registry(v).insert(x@.id, x@)[id] by {
        let i = choose|i: int| held_at(w, id, i);
        lemma_registry_at(w, i);
        if i < v.len() {
            lemma_registry_at(v, i);
        }
    }
    assert(registry(w) =~= registry(v).insert(x@.id, x@));
}

proof fn lemma_registry_update(v: Seq<Instance>, k: int, y: Instance)
    requires
        distinct(v),
        0 <= k < v.len(),
        y@.id == v[k]@.id,
    ensures
        distinct(v.update(k, y)),
        registry(v.update(k, y)) == registry(v).insert(y@.id, y@),
{
    let w = v.update(k, y);
    assert forall|i: int, j: int| 0 <= i < j < w.len() implies w[i]@.id != w[j]@.id by {
        assert(v[i]@.id != v[j]@.id);
    }
    assert forall|id: Seq<char>|
        registry(w).dom().contains(id) <==> registry(v).insert(y@.id, y@).dom().contains(id) by {
        if registry(w).dom().contains(id) {
            let i = choose|i: int| held_at(w, id, i);
            assert(held_at(v, id, i));
        }
        if registry(v).dom().contains(id) {
            let i = choose|i: int| held_at(v, id, i);
            assert(held_at(w, id, i));
        }
        if id == y@.id {
            assert(held_at(w, id, k));
        }
    }
    assert forall|id: Seq<char>| registry(w).dom().contains(id) implies registry(w)[id]
        == registry(v).insert(y@.id, y@)[id] by {
        let i = choose|i: int| held_at(w, id, i);
        lemma_registry_at(w, i);
        lemma_registry_at(v, i);
    }
    assert(registry(w) =~= registry(v).insert(y@.id, y@));
}

proof fn lemma_registry_update_any(v: Seq<Instance>, k: int)
    requires
        distinct(v),
        0 <= k < v.len(),
    ensures
        forall|y: Instance|
            y@.id == v[k]@.id ==> distinct(#[trigger] v.update(k, y)) && registry(v.update(k, y))
                == registry(v).insert(y@.id, y@),
{
    assert forall|y: Instance| y@.id == v[k]@.id implies distinct(#[trigger] v.update(k, y))
        && registry(v.update(k, y)) == registry(v).insert(y@.id, y@) by {
        lemma_registry_update(v, k, y);
    }
}

proof fn lemma_registry_remove(v: Seq<Instance>, k: int)
    requires
        distinct(v),
        0 <= k < v.len(),
    ensures
        distinct(v.remove(k)),
        registry(v.remove(k)) == registry(v).remove(v[k]@.id),
{
    let w = v.remove(k);
    let gone = v[k]@.id;
    assert forall|i: int| 0 <= i < w.len() implies w[i] == v[if i < k {
        i
    } else {
        i + 1
    }] by {}
    assert forall|i: int, j: int| 0 <= i < j < w.len() implies w[i]@.id != w[j]@.id by {
        let a = if i < k {
            i
        } else {
            i + 1
        };
        let b = if j < k {
            j
        } else {
            j + 1
        };
        assert(v[a]@.id != v[b]@.id);
    }
    assert forall|id: Seq<char>|
        registry(w).dom().contains(id) <==> registry(v).remove(gone).dom().contains(id) by {
        if registry(w).dom().contains(id) {
            let i = choose|i: int| held_at(w, id, i);
            let a = if i < k {
                i
            } else {
                i + 1
            };
            assert(held_at(v, id, a));
            if a < k {
                assert(v[a]@.id != v[k]@.id);
            } else {
                assert(v[k]@.id != v[a]@.id);
            }
        }
        if registry(v).dom().contains(id) && id != gone {
            let a = choose|a: int| held_at(v, id, a);
            let i = if a < k {
                a
            } else {
                a - 1
            };
            assert(held_at(w, id, i));
        }
    }
    assert forall|id: Seq<char>| registry(w).dom().contains(id) implies registry(w)[id]
        == registry(v).remove(gone)[id] by {
        let i = choose|i: int| held_at(w, id, i);
        let a = if i < k {
            i
        } else {
            i + 1
        };
        lemma_registry_at(w, i);
        lemma_registry_at(v, a);
    }
    assert(registry(w) =~= registry(v).remove(gone));
}

impl View for Manager {
    type V = ManagerView;

    closed spec fn view(&self) -> ManagerView {
        ManagerView {
            server_files: self.server_files@,
            version_templates: self.version_templates@,
            readiness: self.readiness@,
            instances: registry(self.instances@),
        }
    }
}

impl Manager {
    /// Tells whether the manager is in the condition that every operation
    /// keeps: no two instances share an id, and each instance is in the
    /// condition that its own operations keep.
    pub closed spec fn wf(&self) -> bool {
        &&& distinct(self.instances@)
        &&& forall|i: int| 0 <= i < self.instances@.len() ==> (#[trigger] self.instances@[i]).wf()
    }

    /// In a manager that is in order, every instance stands under its own id
    /// and is in order itself.
    pub proof fn lemma_registered_in_order(&self, id: Seq<char>)
        requires
            self.wf(),
            self@.instances.dom().contains(id),
        ensures
            self@.instances[id].id == id,
            coherent(self@.instances[id]),
    {
        let i = choose|i: int| held_at(self.instances@, id, i);
        lemma_registry_at(self.instances@, i);
        assert(self.instances@[i].wf());
    }

    /// A manager without instances, which gives each new instance the
    /// handshake of a stock game server.
    pub fn new(server_files: String, version_templates: String) -> (r: Manager)
        ensures
            r.wf(),
            r@ == (ManagerView {
                server_files: server_files@,
                version_templates: version_templates@,
                readiness: standard_readiness(),
                instances: Map::empty(),
            }),
    {
        Manager::with_readiness(server_files, version_templates, Readiness::standard())
    }

    /// A manager without instances, which gives each new instance the given
    /// handshake.
    pub fn with_readiness(
        server_files: String,
        version_templates: String,
        readiness: Readiness,
    ) -> (r: Manager)
        ensures
            r.wf(),
            r@ == (ManagerView {
                server_files: server_files@,
                version_templates: version_templates@,
                readiness: readiness@,
                instances: Map::empty(),
            }),
    {
        let r = Manager { server_files, version_templates, readiness, instances: Vec::new() };
        proof {
            lemma_registry_absent(r.instances@, Seq::empty());
            assert forall|id: Seq<char>| !registry(r.instances@).dom().contains(id) by {
                lemma_registry_absent(r.instances@, id);
            }
            assert(r@.instances =~= Map::empty());
        }
        r
    }

    fn position(&self, id: &str) -> (r: Option<usize>)
        requires
            self.wf(),
        ensures
            match r {
                Some(i) => i < self.instances@.len() && self.instances@[i as int]@.id == id@
                    && self@.instances.dom().contains(id@) && self@.instances[id@]
                    == self.instances@[i as int]@,
                None => !self@.instances.dom().contains(id@),
            },
    {
        let n = self.instances.len();
        let mut i: usize = 0;
        while i < n
            invariant
                n == self.instances.len(),
                0 <= i <= n,
                self.wf(),
                forall|j: int| 0 <= j < i ==> self.instances@[j]@.id != id@,
            decreases n - i,
        {
            if same_text(self.instances[i].id(), id) {
                proof {
                    lemma_registry_at(self.instances@, i as int);
                }
                return Some(i);
            }
            i = i + 1;
        }
        proof {
            lemma_registry_absent(self.instances@, id@);
        }
        None
    }

    /// The path of a server's working directory.
    pub fn server_path(&self, id: &str) -> (r: String)
        ensures
            r@ == server_dir(self@, id@),
    {
        join_path(self.server_files.as_str(), id)
    }

    /// The path of a version's template directory.
    pub fn version_path(&self, version: &str) -> (r: String)
        ensures
            r@ == version_dir(self@, version@),
    {
        join_path(self.version_templates.as_str(), version)
    }

    /// Decides whether a server may be started and, if so, how its process
    /// is to be launched. `files_exist` tells whether the server's working
    /// directory exists. The registry is left as it is: the process, once
    /// spawned, is entered with [`Manager::register`].
    pub fn start(&self, id: &str, port: u32, files_exist: bool) -> (r: Result<LaunchPlan, Error>)
        requires
            self.wf(),
        ensures
            match r {
                Ok(plan) => start_check(self@, id@, files_exist) is Ok && plan@ == launch_plan(
                    self@,
                    id@,
                    port,
                ),
                Err(e) => start_check(self@, id@, files_exist) == Err::<(), ErrorView>(e@),
            },
    {
        if !files_exist {
            return Err(Error::ServerFilesMissing());
        }
        if self.position(id).is_some() {
            return Err(Error::ServerAlreadyOnline());
        }
        let mut arguments: Vec<String> = Vec::new();
        arguments.push(String::from_str("-Xmx4G"));
        arguments.push(String::from_str("-Xms1G"));
        arguments.push(String::from_str("-jar"));
        arguments.push(String::from_str("server.jar"));
        arguments.push(String::from_str("nogui"));
        arguments.push(String::from_str("--port"));
        arguments.push(decimal(port));
        let plan = LaunchPlan {
            program: String::from_str("java"),
            arguments,
            directory: self.server_path(id),
        };
        assert(plan@.arguments =~= launch_plan(self@, id@, port).arguments);
        Ok(plan)
    }

    /// Enters a spawned process into the registry. `spawn` tells how the
    /// spawn went, `probe` what a look at the process found right after it.
    /// On success the new instance is starting, with the handshake commands
    /// waiting in its queue, and the caller has to set the two workers going.
    pub fn register(&mut self, id: String, port: u32, spawn: Spawn, probe: Probe) -> (r: Result<
        u32,
        Error,
    >)
        requires
            old(self).wf(),
        ensures
            final(self).wf(),
            (final(self)@, outcome(r)) == register_step(old(self)@, id@, port, spawn@, probe@),
    {
        if self.position(id.as_str()).is_some() {
            return Err(Error::ServerAlreadyOnline());
        }
        match spawn {
            Spawn::Failed(a) => Err(Error::IoError(a)),
            Spawn::Started { stdout, stdin } => {
                if !stdout {
                    return Err(Error::ThreadError(String::from_str("stdout")));
                }
                if !stdin {
                    return Err(Error::ThreadError(String::from_str("stdin")));
                }
                match Instance::process_check(probe) {
                    Err(e) => Err(e),
                    Ok(()) => {
                        let inst = Instance::spawned(id, port, &self.readiness);
                        proof {
                            lemma_registry_push(self.instances@, inst);
                        }
                        self.instances.push(inst);
                        Ok(port)
                    },
                }
            },
        }
    }

    /// Hands out the instance registered under an id, whatever its state.
    /// This is the way in for the workers, which go on until shutdown is
    /// complete. Callers go through [`Manager::get`].
    ///
    /// Whatever is done to the instance is done to the registry, as long as
    /// the instance keeps its id.
    pub fn instance(&mut self, id: &str) -> (r: Option<&mut Instance>)
        requires
            old(self).wf(),
        ensures
            match r {
                Some(inst) => {
                    &&& old(self)@.instances.dom().contains(id@)
                    &&& inst@ == old(self)@.instances[id@]
                    &&& inst@.id == id@
                    &&& inst.wf()
                    &&& final(inst)@.id == id@ ==> final(self)@ == (ManagerView {
                        instances: old(self)@.instances.insert(id@, final(inst)@),
                        ..old(self)@
                    })
                    &&& final(inst)@.id == id@ && final(inst).wf() ==> final(self).wf()
                },
                None => {
                    &&& !old(self)@.instances.dom().contains(id@)
                    &&& *final(self) == *old(self)
                },
            },
    {
        match self.position(id) {
            Some(i) => {
                proof {
                    lemma_registry_update_any(self.instances@, i as int);
                }
                let inst = &mut self.instances[i];
                Some(inst)
            },
            None => None,
        }
    }

    /// Hands out the instance registered under an id if it is online: shutdown
    /// has not begun, and the probe shows its process running. An instance
    /// whose process has died stays registered until it is stopped, but is
    /// not handed out.
    ///
    /// Whatever is done to the instance is done to the registry, as long as
    /// the instance keeps its id.
    pub fn get(&mut self, id: &str, probe: Probe) -> (r: Option<&mut Instance>)
        requires
            old(self).wf(),
        ensures
            match r {
                Some(inst) => {
                    &&& online(old(self)@, id@, probe@)
                    &&& inst@ == old(self)@.instances[id@]
                    &&& inst@.id == id@
                    &&& inst.wf()
                    &&& final(inst)@.id == id@ ==> final(self)@ == (ManagerView {
                        instances: old(self)@.instances.insert(id@, final(inst)@),
                        ..old(self)@
                    })
                    &&& final(inst)@.id == id@ && final(inst).wf() ==> final(self).wf()
                },
                None => {
                    &&& !online(old(self)@, id@, probe@)
                    &&& *final(self) == *old(self)
                },
            },
    {
        match probe {
            Probe::Running => {},
            _ => {
                return None;
            },
        }
        match self.position(id) {
            None => None,
            Some(i) => match self.instances[i].state() {
                State::Stopping => None,
                State::Terminated => None,
                _ => {
                    proof {
                        lemma_registry_update_any(self.instances@, i as int);
                    }
                    let inst = &mut self.instances[i];
                    Some(inst)
                },
            },
        }
    }

    /// Tells whether a server is online.
    pub fn is_online(&self, id: &str, probe: Probe) -> (r: bool)
        requires
            self.wf(),
        ensures
            r == online(self@, id@, probe@),
    {
        match probe {
            Probe::Running => {},
            _ => {
                return false;
            },
        }
        match self.position(id) {
            None => false,
            Some(i) => match self.instances[i].state() {
                State::Stopping => false,
                State::Terminated => false,
                _ => true,
            },
        }
    }

    /// Begins the shutdown of a server. On success the caller has to join the
    /// server's two workers, wait for its process to exit, and then call
    /// [`Manager::finish_stop`]; until then the server stays registered, and
    /// is online to nobody.
    pub fn stop(&mut self, id: &str, probe: Probe) -> (r: Result<(), Error>)
        requires
            old(self).wf(),
        ensures
            final(self).wf(),
            (final(self)@, outcome(r)) == stop_at(old(self)@, id@, probe@),
    {
        match self.instance(id) {
            Some(inst) => inst.stop(probe),
            None => Err(Error::ServerOffline()),
        }
    }

    /// Completes the shutdown of a server, once its workers have been joined
    /// and its process has been reaped, and takes it out of the registry.
    pub fn finish_stop(&mut self, id: &str) -> (r: Result<(), Error>)
        requires
            old(self).wf(),
        ensures
            final(self).wf(),
            (final(self)@, outcome(r)) == finish_at(old(self)@, id@),
    {
        match self.position(id) {
            None => Err(Error::ServerOffline()),
            Some(i) => {
                proof {
                    lemma_registry_update_any(self.instances@, i as int);
                }
                let r = self.instances[i].finish();
                let ghost updated = self.instances@;
                match self.instances[i].state() {
                    State::Terminated => {
                        proof {
                            lemma_registry_remove(updated, i as int);
                            assert(registry(updated).remove(id@) =~= old(self)@.instances.remove(
                                id@,
                            ));
                        }
                        let _ = self.instances.remove(i);
                    },
                    _ => {
                        assert(self@.instances =~= old(self)@.instances);
                    },
                }
                r
            },
        }
    }

    /// Decides whether a server may be created and, if so, which directory
    /// is to be copied where. `dir_exists` tells whether the server's working
    /// directory exists.
    pub fn create(&self, id: &str, version: &str, dir_exists: bool) -> (r: Result<CopyPlan, Error>)
        ensures
            match r {
                Ok(plan) => create_plan(self@, id@, version@, dir_exists) == Ok::<
                    CopyPlanView,
                    ErrorView,
                >(plan@),
                Err(e) => create_plan(self@, id@, version@, dir_exists) == Err::<
                    CopyPlanView,
                    ErrorView,
                >(e@),
            },
    {
        if dir_exists {
            Err(Error::ServerAlreadyExists())
        } else {
            Ok(CopyPlan { from: self.version_path(version), to: self.server_path(id) })
        }
    }

    /// Decides whether a server's files may be deleted and, if so, which
    /// directory is to be removed. `stopped` is the result of the stop that
    /// was tried first, `dir_exists` tells whether the server's working
    /// directory exists.
    pub fn delete(&self, id: &str, stopped: Result<(), Error>, dir_exists: bool) -> (r: Result<
        String,
        Error,
    >)
        ensures
            match r {
                Ok(path) => delete_plan(self@, id@, outcome(stopped), dir_exists) == Ok::<
                    Seq<char>,
                    ErrorView,
                >(path@),
                Err(e) => delete_plan(self@, id@, outcome(stopped), dir_exists) == Err::<
                    Seq<char>,
                    ErrorView,
                >(e@),
            },
    {
        match stopped {
            Err(e) => {
                if !e.not_running() {
                    return Err(e);
                }
            },
            Ok(()) => {},
        }
        if !dir_exists {
            Err(Error::ServerFilesMissing())
        } else {
            Ok(self.server_path(id))
        }
    }

    /// Decides whether a server may be switched to another version and, if
    /// so, which artifact is to be copied over which. `stopped` is the result
    /// of the stop that was tried first, `dir_exists` tells whether the
    /// server's working directory exists.
    pub fn change_version(
        &self,
        id: &str,
        version: &str,
        stopped: Result<(), Error>,
        dir_exists: bool,
    ) -> (r: Result<CopyPlan, Error>)
        ensures
            match r {
                Ok(plan) => version_plan(self@, id@, version@, outcome(stopped), dir_exists) == Ok::<
                    CopyPlanView,
                    ErrorView,
                >(plan@),
                Err(e) => version_plan(self@, id@, version@, outcome(stopped), dir_exists) == Err::<
                    CopyPlanView,
                    ErrorView,
                >(e@),
            },
    {
        match stopped {
            Err(e) => {
                if !e.not_running() {
                    return Err(e);
                }
            },
            Ok(()) => {},
        }
        if !dir_exists {
            Err(Error::ServerFilesMissing())
        } else {
            let template = self.version_path(version);
            let directory = self.server_path(id);
            Ok(
                CopyPlan {
                    from: join_path(template.as_str(), "server.jar"),
                    to: join_path(directory.as_str(), "server.jar"),
                },
            )
        }
    }
}

} // verus!
