//! The supervisor: which workers are registered, the record of each, the
//! stop latch, and the pass that makes sure every registered worker runs.
//!
//! A pass is a dialogue. The supervisor names the next operation, a
//! `SupervisorStep`; the caller carries it out and answers with a
//! `SupervisorReply`, until the step is `Done`. A failure is confined to the
//! worker that it concerns: it is reported, and the pass goes on with the
//! next worker.

use crate::files::{
    eligible, find_newest_mtime_bin_under_folder, is_newest, os_bin_name, BinCandidate,
};
use crate::launchers::{
    recorded_pid, run_check, OneTrackedProc, PidFileMalformed, ProcessState, ReapAction,
};
use vstd::prelude::*;

verus! {

/// Why a worker could not be made sure of in a pass.
#[derive(Clone, Copy, Debug, PartialEq, Eq, Structural)]
pub enum SupervisorError {
    /// The pid file of this record exists but could not be read.
    PidFileUnreadable { proc: usize },
    /// The pid file of this record does not hold a process id.
    PidFileMalformed { proc: usize },
    /// No executable was found for this registered worker.
    BinaryNotFound { worker: usize },
    /// This registered worker could not be started.
    SpawnFailed { worker: usize },
    /// The restart count of this record cannot go up any more.
    RestartsExhausted { proc: usize },
    /// The reply does not answer the step that was asked for.
    UnexpectedReply,
}

/// The operation that the supervisor asks for next.
#[derive(Clone, Copy, Debug, PartialEq, Eq, Structural)]
pub enum SupervisorStep {
    /// Read both output files of this record; answer with `Outputs`.
    ReadOutputs { proc: usize },
    /// Read the pid file of this record; answer with `PidFile`, or with
    /// `Failed` if the file exists and cannot be read.
    ReadPidFile { proc: usize },
    /// Look this process id up in the process table; answer with `Process`.
    QueryProcess { pid: u32 },
    /// Walk the binary directory; answer with `Binaries`.
    FindBinary { worker: usize },
    /// Reap as `reap` says, then start the record that `spawn_target`
    /// gives with the arguments of this registered worker and write its
    /// pid file; answer with `Spawned` or `Failed`.
    Spawn { worker: usize, reap: ReapAction },
    /// The pass is over: every worker it covered was taken up.
    Done,
}

/// What a reply led to.
#[derive(Clone, Copy, Debug, PartialEq, Eq, Structural)]
pub struct SupervisorTurn {
    /// The failure that the reply brought, if any. The worker that it
    /// concerns is left to the next pass.
    pub failed: Option<SupervisorError>,
    /// The operation asked for next.
    pub step: SupervisorStep,
}

/// The outcome of the operation that was asked for.
pub enum SupervisorReply {
    /// The contents of the two output files, `None` for one that could not
    /// be read.
    Outputs { stdout: Option<String>, stderr: Option<String> },
    /// The content of the pid file, `None` where there is no such file.
    PidFile(Option<String>),
    /// What the process table says.
    Process(ProcessState),
    /// The entries of the walk, in its order, `None` for one that could
    /// not be read.
    Binaries(Vec<Option<BinCandidate>>),
    /// The worker runs as this process.
    Spawned(u32),
    /// The operation failed.
    Failed,
}

/// Where a pass stands: which answer it waits for.
#[derive(Clone, Copy, Debug, PartialEq, Eq, Structural)]
pub enum PassStage {
    /// No pass is under way.
    Idle,
    /// Waiting for the output files of record `proc`.
    Outputs { worker: usize, proc: usize },
    /// Waiting for the pid file of record `proc`.
    PidFile { worker: usize, proc: usize },
    /// Waiting for the state of process `pid`, recorded for `proc`.
    Process { worker: usize, proc: usize, pid: u32 },
    /// Waiting for the walk that finds the executable of `worker`.
    Binary { worker: usize },
    /// Waiting for record `proc` to be started again.
    Respawn { worker: usize, proc: usize },
    /// Waiting for the first start of `worker`, whose record is pending.
    FirstSpawn { worker: usize },
}

/// One step of resuming stopped workers briefly.
#[derive(Clone, Copy, Debug, PartialEq, Eq, Structural)]
pub enum ResumeStep {
    /// Continue every worker.
    Continue,
    /// Wait this many milliseconds.
    Pause(u64),
    /// Stop every worker.
    Stop,
}

/// A directory that the environment was to name is not named there.
#[derive(Clone, Copy, Debug, PartialEq, Eq, Structural)]
pub enum MissingDirectory {
    /// `OLIANA_TRACKED_PROC_DIR` is not set.
    TrackedProcDir,
    /// `OLIANA_BIN_DIR` is not set.
    BinDir,
}

/// Whom a signal goes to.
#[derive(Clone, Copy, Debug, PartialEq, Eq, Structural)]
pub enum SignalTarget {
    /// The process with this id.
    Pid(u32),
    /// The process whose id the pid file of this record holds, if any.
    PidFileOf(usize),
}

/// The index of the first record named `name`.
pub open spec fn record_of(procs: Seq<OneTrackedProc>, name: Seq<char>) -> Option<int>
    decreases procs.len(),
{
    if procs.len() == 0 {
        None
    } else {
        match record_of(procs.drop_last(), name) {
            Some(j) => Some(j),
            None => if procs.last().bin_name@ == name {
                Some(procs.len() - 1)
            } else {
                None
            },
        }
    }
}

/// No two records have the same name.
pub open spec fn names_distinct(procs: Seq<OneTrackedProc>) -> bool {
    forall|i: int, j: int|
        0 <= i < j < procs.len() ==> (#[trigger] procs[i]).bin_name@ != (
        #[trigger] procs[j]).bin_name@
}

/// What `record_of` finds: a record of that name, and none before it; or
/// that there is no such record.
pub proof fn lemma_record_of(procs: Seq<OneTrackedProc>, name: Seq<char>)
    ensures
        match record_of(procs, name) {
            Some(j) => 0 <= j < procs.len() && procs[j].bin_name@ == name && forall|k: int|
                0 <= k < j ==> (#[trigger] procs[k]).bin_name@ != name,
            None => forall|k: int| 0 <= k < procs.len() ==> (#[trigger] procs[k]).bin_name@ != name,
        },
    decreases procs.len(),
{
    if procs.len() > 0 {
        lemma_record_of(procs.drop_last(), name);
        assert forall|k: int| 0 <= k < procs.len() - 1 implies procs[k] == procs.drop_last()[k] by {}
    }
}

/// The step that opens a stage.
pub open spec fn opening_step(stage: PassStage, reap: ReapAction) -> SupervisorStep {
    match stage {
        PassStage::Idle => SupervisorStep::Done,
        PassStage::Outputs { worker, proc } => SupervisorStep::ReadOutputs { proc },
        PassStage::PidFile { worker, proc } => SupervisorStep::ReadPidFile { proc },
        PassStage::Process { worker, proc, pid } => SupervisorStep::QueryProcess { pid },
        PassStage::Binary { worker } => SupervisorStep::FindBinary { worker },
        PassStage::Respawn { worker, proc } => SupervisorStep::Spawn { worker, reap },
        PassStage::FirstSpawn { worker } => SupervisorStep::Spawn { worker, reap },
    }
}

/// The turn that asks for `step` and reports no failure.
pub open spec fn goes_on(step: SupervisorStep) -> SupervisorTurn {
    SupervisorTurn { failed: None, step }
}

/// The registered worker that a stage is about.
pub open spec fn stage_worker(stage: PassStage) -> Option<usize> {
    match stage {
        PassStage::Idle => None,
        PassStage::Outputs { worker, proc } => Some(worker),
        PassStage::PidFile { worker, proc } => Some(worker),
        PassStage::Process { worker, proc, pid } => Some(worker),
        PassStage::Binary { worker } => Some(worker),
        PassStage::Respawn { worker, proc } => Some(worker),
        PassStage::FirstSpawn { worker } => Some(worker),
    }
}

/// The characters of a text that may be missing.
pub open spec fn chars_of(content: Option<String>) -> Option<Seq<char>> {
    match content {
        Some(c) => Some(c@),
        None => None,
    }
}

/// The supervisor's state.
pub struct TrackedProcs {
    /// The directory that holds the pid and output files of the workers.
    pub proc_track_dir: String,
    /// The directory under which the executables are looked for.
    pub expected_bin_directory: String,
    /// The records, in the order in which the workers were first started.
    pub procs: Vec<OneTrackedProc>,
    /// The registered workers: name and arguments, in order of registration.
    pub tracked_proc_args: Vec<(String, Vec<String>)>,
    /// The stop latch: workers are to be held stopped and resumed briefly.
    pub procs_should_be_stopped: bool,
    /// Whether the host can stop and continue processes.
    pub can_suspend: bool,
    /// Whether the host is Windows.
    pub windows: bool,
    /// Where the pass under way stands.
    pub stage: PassStage,
    /// The pass under way ends before this registered worker.
    pub pass_end: usize,
    /// The record of a worker that is being started for the first time.
    pub pending: Option<OneTrackedProc>,
}

impl TrackedProcs {
    /// Every record is well formed and no two share a name.
    pub open spec fn records_wf(&self) -> bool {
        &&& forall|i: int| 0 <= i < self.procs@.len() ==> (#[trigger] self.procs@[i]).wf()
        &&& names_distinct(self.procs@)
        &&& self.pass_end <= self.tracked_proc_args@.len()
    }

    /// The name of a registered worker.
    pub open spec fn worker_name(&self, worker: int) -> Seq<char> {
        self.tracked_proc_args@[worker].0@
    }

    /// The stage fits the rest of the state.
    pub open spec fn stage_wf(&self) -> bool {
        match self.stage {
            PassStage::Idle => self.pending is None,
            PassStage::Outputs { worker, proc } => self.tracks(worker, proc),
            PassStage::PidFile { worker, proc } => self.tracks(worker, proc),
            PassStage::Process { worker, proc, pid } => self.tracks(worker, proc),
            PassStage::Respawn { worker, proc } => self.tracks(worker, proc)
                && self.procs@[proc as int].proc_restart_count < u32::MAX,
            PassStage::Binary { worker } => {
                &&& worker < self.pass_end
                &&& self.pending is None
                &&& record_of(self.procs@, self.worker_name(worker as int)) is None
            },
            PassStage::FirstSpawn { worker } => {
                &&& worker < self.pass_end
                &&& record_of(self.procs@, self.worker_name(worker as int)) is None
                &&& self.pending is Some
                &&& self.pending->0.wf()
                &&& self.pending->0.fresh()
                &&& self.pending->0.bin_name@ == self.worker_name(worker as int)
                &&& self.pending->0.proc_track_dir@ == self.proc_track_dir@
            },
        }
    }

    /// Record `proc` is the record of registered worker `worker`, which the
    /// pass has reached, and nothing is pending.
    pub open spec fn tracks(&self, worker: usize, proc: usize) -> bool {
        &&& worker < self.pass_end
        &&& proc < self.procs@.len()
        &&& self.procs@[proc as int].bin_name@ == self.worker_name(worker as int)
        &&& self.pending is None
    }

    /// The state is well formed.
    pub open spec fn wf(&self) -> bool {
        self.records_wf() && self.stage_wf()
    }

    /// The registered workers as plain values.
    pub open spec fn registered(&self) -> Seq<(Seq<char>, Seq<Seq<char>>)> {
        Seq::new(
            self.tracked_proc_args@.len(),
            |i: int|
                (
                    self.tracked_proc_args@[i].0@,
                    Seq::new(
                        self.tracked_proc_args@[i].1@.len(),
                        |k: int| self.tracked_proc_args@[i].1@[k]@,
                    ),
                ),
        )
    }

    /// `other` has the same directories, host, registered workers and latch.
    pub open spec fn same_setup(&self, other: &Self) -> bool {
        &&& self.proc_track_dir@ == other.proc_track_dir@
        &&& self.expected_bin_directory@ == other.expected_bin_directory@
        &&& self.tracked_proc_args == other.tracked_proc_args
        &&& self.procs_should_be_stopped == other.procs_should_be_stopped
        &&& self.can_suspend == other.can_suspend
        &&& self.windows == other.windows
    }

    /// Every record of `before` is still there, in its place and for the
    /// same worker, and has been started at least as often.
    pub open spec fn continues(&self, before: &Self) -> bool {
        &&& before.procs@.len() <= self.procs@.len()
        &&& forall|i: int|
            0 <= i < before.procs@.len() ==> (#[trigger] self.procs@[i]).same_worker(
                &before.procs@[i],
            ) && self.procs@[i].proc_restart_count >= before.procs@[i].proc_restart_count
    }

    /// The records of `before` but for record `proc`.
    pub open spec fn same_records_but(&self, before: &Self, proc: int) -> bool {
        &&& self.procs@.len() == before.procs@.len()
        &&& forall|i: int|
            0 <= i < before.procs@.len() && i != proc ==> #[trigger] self.procs@[i]
                == before.procs@[i]
    }

    /// The stage in which the pass takes up registered worker `worker`:
    /// the pass is over behind its last worker; a worker that has a record
    /// is checked, starting with its output; one without is looked for in
    /// the binary directory.
    pub open spec fn entry_stage(&self, worker: int) -> PassStage {
        if worker >= self.pass_end {
            PassStage::Idle
        } else {
            match record_of(self.procs@, self.worker_name(worker)) {
                Some(j) => PassStage::Outputs { worker: worker as usize, proc: j as usize },
                None => PassStage::Binary { worker: worker as usize },
            }
        }
    }

    /// The turn after `error` kept `worker` from being made sure of: the
    /// failure is reported and the pass takes up the next worker.
    pub open spec fn failure_turn(&self, worker: int, error: SupervisorError) -> SupervisorTurn {
        SupervisorTurn {
            failed: Some(error),
            step: opening_step(self.entry_stage(worker + 1), ReapAction::Nothing),
        }
    }

    /// The stage in which the worker of record `proc`, found not running,
    /// is started again; if its restart count is at its limit, the stage in
    /// which the pass takes up the next worker.
    pub open spec fn respawn_stage(&self, worker: usize, proc: usize) -> PassStage {
        if self.procs@[proc as int].proc_restart_count < u32::MAX {
            PassStage::Respawn { worker, proc }
        } else {
            self.entry_stage(worker + 1)
        }
    }

    /// The turn that starts the worker of record `proc` again, or reports
    /// that its restart count is at its limit.
    pub open spec fn respawn_turn(
        &self,
        worker: usize,
        proc: usize,
        reap: ReapAction,
    ) -> SupervisorTurn {
        if self.procs@[proc as int].proc_restart_count < u32::MAX {
            goes_on(SupervisorStep::Spawn { worker, reap })
        } else {
            self.failure_turn(worker as int, SupervisorError::RestartsExhausted { proc })
        }
    }

    /// A supervisor without workers. `can_suspend` says whether the host
    /// can stop and continue processes, `windows` whether it is Windows.
    pub fn new(
        proc_track_dir: &str,
        expected_bin_directory: &str,
        can_suspend: bool,
        windows: bool,
    ) -> (r: Self)
        ensures
            r.wf(),
            r.proc_track_dir@ == proc_track_dir@,
            r.expected_bin_directory@ == expected_bin_directory@,
            r.procs@.len() == 0,
            r.tracked_proc_args@.len() == 0,
            !r.procs_should_be_stopped,
            r.can_suspend == can_suspend,
            r.windows == windows,
            r.stage == PassStage::Idle,
    {
        TrackedProcs {
            proc_track_dir: String::from_str(proc_track_dir),
            expected_bin_directory: String::from_str(expected_bin_directory),
            procs: Vec::new(),
            tracked_proc_args: Vec::new(),
            procs_should_be_stopped: false,
            can_suspend,
            windows,
            stage: PassStage::Idle,
            pass_end: 0,
            pending: None,
        }
    }

    /// A supervisor without workers whose directories come from the
    /// environment: `tracked_proc_dir` is the value of
    /// `OLIANA_TRACKED_PROC_DIR` and `bin_dir` that of `OLIANA_BIN_DIR`,
    /// `None` for one that is not set.
    pub fn new_from_env(
        tracked_proc_dir: Option<&str>,
        bin_dir: Option<&str>,
        can_suspend: bool,
        windows: bool,
    ) -> (r: Result<Self, MissingDirectory>)
        ensures
            match (tracked_proc_dir, bin_dir) {
                (None, _) => r == Err::<Self, MissingDirectory>(MissingDirectory::TrackedProcDir),
                (Some(_), None) => r == Err::<Self, MissingDirectory>(MissingDirectory::BinDir),
                (Some(track), Some(bin)) => r matches Ok(sup) && {
                    &&& sup.wf()
                    &&& sup.proc_track_dir@ == track@
                    &&& sup.expected_bin_directory@ == bin@
                    &&& sup.procs@.len() == 0
                    &&& sup.tracked_proc_args@.len() == 0
                    &&& !sup.procs_should_be_stopped
                    &&& sup.can_suspend == can_suspend
                    &&& sup.windows == windows
                    &&& sup.stage == PassStage::Idle
                },
            },
    {
        match tracked_proc_dir {
            None => Err(MissingDirectory::TrackedProcDir),
            Some(track) => match bin_dir {
                None => Err(MissingDirectory::BinDir),
                Some(bin) => Ok(TrackedProcs::new(track, bin, can_suspend, windows)),
            },
        }
    }

    /// Registers a worker under `process_bin_name` with its arguments. No
    /// process is touched.
    pub fn register_tracked_proc(&mut self, process_bin_name: &str, process_args: &[&str])
        requires
            old(self).wf(),
        ensures
            final(self).wf(),
            final(self).registered() == old(self).registered().push(
                (process_bin_name@, Seq::new(process_args@.len(), |k: int| process_args@[k]@)),
            ),
            final(self).procs == old(self).procs,
            final(self).stage == old(self).stage,
            final(self).pending == old(self).pending,
            final(self).pass_end == old(self).pass_end,
            final(self).procs_should_be_stopped == old(self).procs_should_be_stopped,
    {
        let mut owned: Vec<String> = Vec::new();
        let mut i: usize = 0;
        while i < process_args.len()
            invariant
                i <= process_args@.len(),
                owned@.len() == i,
                forall|k: int| 0 <= k < i ==> (#[trigger] owned@[k])@ == process_args@[k]@,
            decreases process_args.len() - i,
        {
            owned.push(String::from_str(process_args[i]));
            i = i + 1;
        }
        self.tracked_proc_args.push((String::from_str(process_bin_name), owned));
        proof {
            let n = old(self).tracked_proc_args@.len() as int;
            assert(self.registered() =~= old(self).registered().push(
                (process_bin_name@, Seq::new(process_args@.len(), |k: int| process_args@[k]@)),
            )) by {
                assert(self.registered()[n].1 =~= Seq::new(
                    process_args@.len(),
                    |k: int| process_args@[k]@,
                ));
            }
        }
    }

    /// The index of the record named `name`.
    pub fn find_proc(&self, name: &String) -> (r: Option<usize>)
        ensures
            match r {
                Some(j) => record_of(self.procs@, name@) == Some(j as int),
                None => record_of(self.procs@, name@) is None,
            },
    {
        let mut i: usize = 0;
        while i < self.procs.len()
            invariant
                i <= self.procs@.len(),
                record_of(self.procs@.take(i as int), name@) is None,
            decreases self.procs.len() - i,
        {
            proof {
                lemma_record_of_prefix(self.procs@, name@, i + 1);
            }
            if self.procs[i].bin_name == *name {
                return Some(i);
            }
            i = i + 1;
        }
        assert(self.procs@.take(i as int) =~= self.procs@);
        None
    }

    fn enter(&mut self, worker: usize) -> (step: SupervisorStep)
        requires
            old(self).records_wf(),
            old(self).pending is None,
        ensures
            final(self).wf(),
            final(self).stage == old(self).entry_stage(worker as int),
            step == opening_step(final(self).stage, ReapAction::Nothing),
            final(self).same_setup(old(self)),
            final(self).procs == old(self).procs,
            final(self).pass_end == old(self).pass_end,
            final(self).pending is None,
    {
        if worker >= self.pass_end {
            self.stage = PassStage::Idle;
            return SupervisorStep::Done;
        }
        proof {
            lemma_record_of(self.procs@, self.worker_name(worker as int));
        }
        match self.find_proc(&self.tracked_proc_args[worker].0) {
            Some(j) => {
                self.stage = PassStage::Outputs { worker, proc: j };
                SupervisorStep::ReadOutputs { proc: j }
            },
            None => {
                self.stage = PassStage::Binary { worker };
                SupervisorStep::FindBinary { worker }
            },
        }
    }

    fn fail(&mut self, worker: usize, error: SupervisorError) -> (turn: SupervisorTurn)
        requires
            old(self).records_wf(),
            worker < old(self).pass_end,
        ensures
            final(self).wf(),
            final(self).stage == old(self).entry_stage(worker + 1),
            turn == old(self).failure_turn(worker as int, error),
            final(self).same_setup(old(self)),
            final(self).procs == old(self).procs,
            final(self).pass_end == old(self).pass_end,
            final(self).pending is None,
    {
        self.pending = None;
        let step = self.enter(worker + 1);
        SupervisorTurn { failed: Some(error), step }
    }

    fn found_gone(&mut self, worker: usize, proc: usize, reap: ReapAction) -> (turn:
        SupervisorTurn)
        requires
            old(self).records_wf(),
            old(self).tracks(worker, proc),
        ensures
            final(self).wf(),
            final(self).same_setup(old(self)),
            final(self).pass_end == old(self).pass_end,
            final(self).continues(old(self)),
            final(self).after_gone(old(self), worker, proc, reap, turn),
    {
        self.procs[proc].forget_pid();
        proof {
            lemma_names_kept(old(self).procs@, self.procs@);
        }
        if self.procs[proc].proc_restart_count < u32::MAX {
            self.stage = PassStage::Respawn { worker, proc };
            goes_on_exec(SupervisorStep::Spawn { worker, reap })
        } else {
            self.fail(worker, SupervisorError::RestartsExhausted { proc })
        }
    }

    /// Starts a pass over every registered worker, in order of
    /// registration. A pass that was under way is given up.
    pub fn ensure_registered_procs_running(&mut self) -> (step: SupervisorStep)
        requires
            old(self).wf(),
        ensures
            final(self).wf(),
            final(self).same_setup(old(self)),
            final(self).procs == old(self).procs,
            final(self).pass_end == old(self).tracked_proc_args@.len(),
            final(self).stage == final(self).entry_stage(0),
            step == opening_step(final(self).stage, ReapAction::Nothing),
    {
        self.pending = None;
        self.pass_end = self.tracked_proc_args.len();
        self.enter(0)
    }

    /// Starts a pass over the one registered worker `worker`; a pass over
    /// nothing if there is no such worker. A pass that was under way is
    /// given up.
    pub fn ensure_named_proc_running(&mut self, worker: usize) -> (step: SupervisorStep)
        requires
            old(self).wf(),
        ensures
            final(self).wf(),
            final(self).same_setup(old(self)),
            final(self).procs == old(self).procs,
            final(self).pass_end == if worker < old(self).tracked_proc_args@.len() {
                worker + 1
            } else {
                old(self).tracked_proc_args@.len() as int
            },
            final(self).stage == final(self).entry_stage(worker as int),
            step == opening_step(final(self).stage, ReapAction::Nothing),
    {
        self.pending = None;
        self.pass_end = if worker < self.tracked_proc_args.len() {
            worker + 1
        } else {
            self.tracked_proc_args.len()
        };
        self.enter(worker)
    }

    /// The state after the output files of record `proc` were read.
    pub open spec fn after_outputs(
        &self,
        before: &Self,
        worker: usize,
        proc: usize,
        stdout: Option<Seq<char>>,
        stderr: Option<Seq<char>>,
        turn: SupervisorTurn,
    ) -> bool {
        &&& self.stage == PassStage::PidFile { worker, proc }
        &&& turn == goes_on(SupervisorStep::ReadPidFile { proc })
        &&& self.same_records_but(before, proc as int)
        &&& self.procs@[proc as int].refreshed_from(&before.procs@[proc as int], stdout, stderr)
    }

    /// The state after the worker of record `proc` was found gone: the
    /// record forgets its process id, and the worker is started again
    /// unless its restart count is at its limit.
    pub open spec fn after_gone(
        &self,
        before: &Self,
        worker: usize,
        proc: usize,
        reap: ReapAction,
        turn: SupervisorTurn,
    ) -> bool {
        &&& self.same_records_but(before, proc as int)
        &&& self.procs@[proc as int].with_pid_from(&before.procs@[proc as int], None)
        &&& self.stage == before.respawn_stage(worker, proc)
        &&& turn == before.respawn_turn(worker, proc, reap)
    }

    /// The state after `error` kept `worker` from being made sure of: the
    /// records are as they were and the pass takes up the next worker.
    pub open spec fn after_failure(
        &self,
        before: &Self,
        worker: usize,
        error: SupervisorError,
        turn: SupervisorTurn,
    ) -> bool {
        &&& self.procs == before.procs
        &&& self.stage == before.entry_stage(worker + 1)
        &&& turn == before.failure_turn(worker as int, error)
    }

    /// The state after the pid file of record `proc` was read: an id is
    /// remembered and looked up; without a pid file the worker counts as
    /// gone; content that is no id is a failure.
    pub open spec fn after_pid_file(
        &self,
        before: &Self,
        worker: usize,
        proc: usize,
        content: Option<Seq<char>>,
        turn: SupervisorTurn,
    ) -> bool {
        match recorded_pid(content) {
            Err(_) => self.after_failure(
                before,
                worker,
                SupervisorError::PidFileMalformed { proc },
                turn,
            ),
            Ok(Some(pid)) => {
                &&& self.same_records_but(before, proc as int)
                &&& self.procs@[proc as int].with_pid_from(&before.procs@[proc as int], Some(pid))
                &&& self.stage == PassStage::Process { worker, proc, pid }
                &&& turn == goes_on(SupervisorStep::QueryProcess { pid })
            },
            Ok(None) => self.after_gone(before, worker, proc, ReapAction::Nothing, turn),
        }
    }

    /// The state after process `pid` of record `proc` was looked up: the
    /// pass goes on to the next worker if this one runs, else the worker
    /// counts as gone.
    pub open spec fn after_process(
        &self,
        before: &Self,
        worker: usize,
        proc: usize,
        pid: u32,
        state: ProcessState,
        turn: SupervisorTurn,
    ) -> bool {
        let check = run_check(Some(pid), state);
        if check.running {
            &&& self.procs == before.procs
            &&& self.stage == before.entry_stage(worker + 1)
            &&& turn == goes_on(opening_step(self.stage, ReapAction::Nothing))
        } else {
            self.after_gone(before, worker, proc, check.reap, turn)
        }
    }

    /// The state after the binary directory was walked for `worker`: a
    /// fresh record with the newest executable of the worker's name is
    /// pending and to be started; that there is no such file is a failure.
    pub open spec fn after_binaries(
        &self,
        before: &Self,
        worker: usize,
        entries: Seq<Option<BinCandidate>>,
        turn: SupervisorTurn,
    ) -> bool {
        let name = os_bin_name(before.worker_name(worker as int), before.windows);
        if exists|i: int| eligible(entries, name, i) {
            &&& self.procs == before.procs
            &&& self.stage == PassStage::FirstSpawn { worker }
            &&& turn == goes_on(SupervisorStep::Spawn { worker, reap: ReapAction::Nothing })
            &&& self.pending is Some
            &&& exists|i: int|
                is_newest(entries, name, i) && self.pending->0.filesystem_bin_path@
                    == entries[i]->0.path@
        } else {
            self.after_failure(before, worker, SupervisorError::BinaryNotFound { worker }, turn)
        }
    }

    /// The state after record `proc` was started again as process `pid`.
    pub open spec fn after_respawn(
        &self,
        before: &Self,
        worker: usize,
        proc: usize,
        pid: u32,
        turn: SupervisorTurn,
    ) -> bool {
        &&& self.same_records_but(before, proc as int)
        &&& self.procs@[proc as int].spawned_from(&before.procs@[proc as int], pid)
        &&& self.stage == self.entry_stage(worker + 1)
        &&& turn == goes_on(opening_step(self.stage, ReapAction::Nothing))
    }

    /// The state after the pending record was started as process `pid`: it
    /// is the last record now.
    pub open spec fn after_first_spawn(
        &self,
        before: &Self,
        worker: usize,
        pid: u32,
        turn: SupervisorTurn,
    ) -> bool {
        &&& self.procs@.len() == before.procs@.len() + 1
        &&& forall|i: int|
            0 <= i < before.procs@.len() ==> #[trigger] self.procs@[i] == before.procs@[i]
        &&& self.procs@.last().spawned_from(&before.pending->0, pid)
        &&& self.stage == self.entry_stage(worker + 1)
        &&& turn == goes_on(opening_step(self.stage, ReapAction::Nothing))
    }

    /// The state after a reply that answers nothing asked: while a pass is
    /// under way it is a failure for the worker that the pass stands at;
    /// without a pass nothing changes.
    pub open spec fn after_stray(&self, before: &Self, turn: SupervisorTurn) -> bool {
        match stage_worker(before.stage) {
            Some(worker) => self.after_failure(
                before,
                worker,
                SupervisorError::UnexpectedReply,
                turn,
            ),
            None => {
                &&& self.procs == before.procs
                &&& self.stage == PassStage::Idle
                &&& turn == (SupervisorTurn {
                    failed: Some(SupervisorError::UnexpectedReply),
                    step: SupervisorStep::Done,
                })
            },
        }
    }

    /// What a reply does in each stage.
    pub open spec fn replied(
        &self,
        before: &Self,
        reply: SupervisorReply,
        turn: SupervisorTurn,
    ) -> bool {
        match (before.stage, reply) {
            (
                PassStage::Outputs { worker, proc },
                SupervisorReply::Outputs { stdout, stderr },
            ) => self.after_outputs(
                before,
                worker,
                proc,
                chars_of(stdout),
                chars_of(stderr),
                turn,
            ),
            (
                PassStage::PidFile { worker, proc },
                SupervisorReply::PidFile(content),
            ) => self.after_pid_file(before, worker, proc, chars_of(content), turn),
            (PassStage::PidFile { worker, proc }, SupervisorReply::Failed) => self.after_failure(
                before,
                worker,
                SupervisorError::PidFileUnreadable { proc },
                turn,
            ),
            (
                PassStage::Process { worker, proc, pid },
                SupervisorReply::Process(state),
            ) => self.after_process(before, worker, proc, pid, state, turn),
            (
                PassStage::Binary { worker },
                SupervisorReply::Binaries(entries),
            ) => self.after_binaries(before, worker, entries@, turn),
            (
                PassStage::Respawn { worker, proc },
                SupervisorReply::Spawned(pid),
            ) => self.after_respawn(before, worker, proc, pid, turn),
            (PassStage::Respawn { worker, proc }, SupervisorReply::Failed) => self.after_failure(
                before,
                worker,
                SupervisorError::SpawnFailed { worker },
                turn,
            ),
            (
                PassStage::FirstSpawn { worker },
                SupervisorReply::Spawned(pid),
            ) => self.after_first_spawn(before, worker, pid, turn),
            (PassStage::FirstSpawn { worker }, SupervisorReply::Failed) => self.after_failure(
                before,
                worker,
                SupervisorError::SpawnFailed { worker },
                turn,
            ),
            _ => self.after_stray(before, turn),
        }
    }

    fn on_outputs(
        &mut self,
        worker: usize,
        proc: usize,
        stdout: Option<String>,
        stderr: Option<String>,
    ) -> (turn: SupervisorTurn)
        requires
            old(self).wf(),
            old(self).stage == (PassStage::Outputs { worker, proc }),
        ensures
            final(self).wf(),
            final(self).same_setup(old(self)),
            final(self).pass_end == old(self).pass_end,
            final(self).continues(old(self)),
            final(self).after_outputs(
                old(self),
                worker,
                proc,
                chars_of(stdout),
                chars_of(stderr),
                turn,
            ),
    {
        let out: Option<&str> = match &stdout {
            Some(t) => Some(t.as_str()),
            None => None,
        };
        let err: Option<&str> = match &stderr {
            Some(t) => Some(t.as_str()),
            None => None,
        };
        let _ = self.procs[proc].update_proc_output_txt_from_files(out, err);
        self.stage = PassStage::PidFile { worker, proc };
        proof {
            lemma_names_kept(old(self).procs@, self.procs@);
        }
        goes_on_exec(SupervisorStep::ReadPidFile { proc })
    }

    fn on_pid_file(&mut self, worker: usize, proc: usize, content: Option<String>) -> (turn:
        SupervisorTurn)
        requires
            old(self).wf(),
            old(self).stage == (PassStage::PidFile { worker, proc }),
        ensures
            final(self).wf(),
            final(self).same_setup(old(self)),
            final(self).pass_end == old(self).pass_end,
            final(self).continues(old(self)),
            final(self).after_pid_file(old(self), worker, proc, chars_of(content), turn),
    {
        let text: Option<&str> = match &content {
            Some(t) => Some(t.as_str()),
            None => None,
        };
        match crate::launchers::read_pid(text) {
            Err(_) => self.fail(worker, SupervisorError::PidFileMalformed { proc }),
            Ok(None) => self.found_gone(worker, proc, ReapAction::Nothing),
            Ok(Some(pid)) => {
                let _ = self.procs[proc].get_expected_pid(text);
                self.stage = PassStage::Process { worker, proc, pid };
                proof {
                    lemma_names_kept(old(self).procs@, self.procs@);
                }
                goes_on_exec(SupervisorStep::QueryProcess { pid })
            },
        }
    }

    fn on_process(&mut self, worker: usize, proc: usize, pid: u32, state: ProcessState) -> (turn:
        SupervisorTurn)
        requires
            old(self).wf(),
            old(self).stage == (PassStage::Process { worker, proc, pid }),
        ensures
            final(self).wf(),
            final(self).same_setup(old(self)),
            final(self).pass_end == old(self).pass_end,
            final(self).continues(old(self)),
            final(self).after_process(old(self), worker, proc, pid, state, turn),
    {
        let check = self.procs[proc].is_running(Some(pid), state);
        if check.running {
            goes_on_exec(self.enter(worker + 1))
        } else {
            self.found_gone(worker, proc, check.reap)
        }
    }

    fn on_binaries(&mut self, worker: usize, entries: Vec<Option<BinCandidate>>) -> (turn:
        SupervisorTurn)
        requires
            old(self).wf(),
            old(self).stage == (PassStage::Binary { worker }),
        ensures
            final(self).wf(),
            final(self).same_setup(old(self)),
            final(self).pass_end == old(self).pass_end,
            final(self).continues(old(self)),
            final(self).after_binaries(old(self), worker, entries@, turn),
    {
        match find_newest_mtime_bin_under_folder(
            &entries,
            self.tracked_proc_args[worker].0.as_str(),
            self.windows,
        ) {
            Ok(path) => {
                let record = OneTrackedProc::new(
                    self.proc_track_dir.as_str(),
                    self.tracked_proc_args[worker].0.as_str(),
                    path,
                );
                self.pending = Some(record);
                self.stage = PassStage::FirstSpawn { worker };
                goes_on_exec(SupervisorStep::Spawn { worker, reap: ReapAction::Nothing })
            },
            Err(_) => self.fail(worker, SupervisorError::BinaryNotFound { worker }),
        }
    }

    fn on_respawned(&mut self, worker: usize, proc: usize, pid: u32) -> (turn: SupervisorTurn)
        requires
            old(self).wf(),
            old(self).stage == (PassStage::Respawn { worker, proc }),
        ensures
            final(self).wf(),
            final(self).same_setup(old(self)),
            final(self).pass_end == old(self).pass_end,
            final(self).continues(old(self)),
            final(self).after_respawn(old(self), worker, proc, pid, turn),
    {
        let _ = self.procs[proc].spawn_proc(pid);
        proof {
            lemma_names_kept(old(self).procs@, self.procs@);
        }
        goes_on_exec(self.enter(worker + 1))
    }

    fn on_first_spawned(&mut self, worker: usize, pid: u32) -> (turn: SupervisorTurn)
        requires
            old(self).wf(),
            old(self).stage == (PassStage::FirstSpawn { worker }),
        ensures
            final(self).wf(),
            final(self).same_setup(old(self)),
            final(self).pass_end == old(self).pass_end,
            final(self).continues(old(self)),
            final(self).after_first_spawn(old(self), worker, pid, turn),
    {
        match self.pending.take() {
            Some(mut record) => {
                let _ = record.spawn_proc(pid);
                proof {
                    lemma_record_of(self.procs@, record.bin_name@);
                }
                self.procs.push(record);
                goes_on_exec(self.enter(worker + 1))
            },
            None => self.fail(worker, SupervisorError::UnexpectedReply),
        }
    }

    fn on_stray(&mut self) -> (turn: SupervisorTurn)
        requires
            old(self).wf(),
        ensures
            final(self).wf(),
            final(self).same_setup(old(self)),
            final(self).pass_end == old(self).pass_end,
            final(self).continues(old(self)),
            final(self).after_stray(old(self), turn),
    {
        let at: Option<usize> = match self.stage {
            PassStage::Idle => None,
            PassStage::Outputs { worker, proc } => Some(worker),
            PassStage::PidFile { worker, proc } => Some(worker),
            PassStage::Process { worker, proc, pid } => Some(worker),
            PassStage::Binary { worker } => Some(worker),
            PassStage::Respawn { worker, proc } => Some(worker),
            PassStage::FirstSpawn { worker } => Some(worker),
        };
        match at {
            Some(worker) => self.fail(worker, SupervisorError::UnexpectedReply),
            None => SupervisorTurn {
                failed: Some(SupervisorError::UnexpectedReply),
                step: SupervisorStep::Done,
            },
        }
    }

    /// Takes the answer to the step that was asked for last and names the
    /// next step. A failure is reported in the turn; the pass then goes on
    /// with the next worker.
    pub fn supervision_reply(&mut self, reply: SupervisorReply) -> (turn: SupervisorTurn)
        requires
            old(self).wf(),
        ensures
            final(self).wf(),
            final(self).same_setup(old(self)),
            final(self).pass_end == old(self).pass_end,
            final(self).continues(old(self)),
            final(self).replied(old(self), reply, turn),
    {
        match (self.stage, reply) {
            (
                PassStage::Outputs { worker, proc },
                SupervisorReply::Outputs { stdout, stderr },
            ) => self.on_outputs(worker, proc, stdout, stderr),
            (PassStage::PidFile { worker, proc }, SupervisorReply::PidFile(content)) => {
                self.on_pid_file(worker, proc, content)
            },
            (PassStage::PidFile { worker, proc }, SupervisorReply::Failed) => self.fail(
                worker,
                SupervisorError::PidFileUnreadable { proc },
            ),
            (PassStage::Process { worker, proc, pid }, SupervisorReply::Process(state)) => {
                self.on_process(worker, proc, pid, state)
            },
            (PassStage::Binary { worker }, SupervisorReply::Binaries(entries)) => {
                self.on_binaries(worker, entries)
            },
            (PassStage::Respawn { worker, proc }, SupervisorReply::Spawned(pid)) => {
                self.on_respawned(worker, proc, pid)
            },
            (PassStage::Respawn { worker, proc }, SupervisorReply::Failed) => self.fail(
                worker,
                SupervisorError::SpawnFailed { worker },
            ),
            (PassStage::FirstSpawn { worker }, SupervisorReply::Spawned(pid)) => {
                self.on_first_spawned(worker, pid)
            },
            (PassStage::FirstSpawn { worker }, SupervisorReply::Failed) => self.fail(
                worker,
                SupervisorError::SpawnFailed { worker },
            ),
            _ => self.on_stray(),
        }
    }

    /// The record that a `Spawn` step is about: the pending record of a
    /// worker that is started for the first time, or the record that is
    /// started again. `None` unless a `Spawn` step is under way.
    pub fn spawn_target(&self) -> (r: Option<&OneTrackedProc>)
        requires
            self.wf(),
        ensures
            match self.stage {
                PassStage::Respawn { worker, proc } => r == Some(&self.procs@[proc as int]),
                PassStage::FirstSpawn { worker } => r == Some(&self.pending->0),
                _ => r is None,
            },
    {
        match self.stage {
            PassStage::Respawn { worker, proc } => Some(&self.procs[proc]),
            PassStage::FirstSpawn { worker } => self.pending.as_ref(),
            _ => None,
        }
    }

    /// How the workers are resumed briefly now: while the latch is set on a
    /// host that can stop processes they are continued, left to run for
    /// `resume_for_ms` milliseconds and stopped again; else nothing is done.
    pub fn resume_sigstop_procs(&self, resume_for_ms: u64) -> (r: Vec<ResumeStep>)
        ensures
            r@ == if self.procs_should_be_stopped && self.can_suspend {
                seq![ResumeStep::Continue, ResumeStep::Pause(resume_for_ms), ResumeStep::Stop]
            } else {
                Seq::<ResumeStep>::empty()
            },
    {
        let mut plan: Vec<ResumeStep> = Vec::new();
        if self.procs_should_be_stopped && self.can_suspend {
            plan.push(ResumeStep::Continue);
            plan.push(ResumeStep::Pause(resume_for_ms));
            plan.push(ResumeStep::Stop);
        }
        plan
    }

    /// Sets or clears the stop latch. Returns whether every worker is to be
    /// continued at once: when a set latch is cleared on a host that can
    /// stop processes.
    pub fn set_procs_should_be_stopped(&mut self, should_be_stopped: bool) -> (r: bool)
        ensures
            final(self).procs_should_be_stopped == should_be_stopped,
            r == (old(self).procs_should_be_stopped && !should_be_stopped && old(
                self,
            ).can_suspend),
            final(self).proc_track_dir == old(self).proc_track_dir,
            final(self).expected_bin_directory == old(self).expected_bin_directory,
            final(self).procs == old(self).procs,
            final(self).tracked_proc_args == old(self).tracked_proc_args,
            final(self).can_suspend == old(self).can_suspend,
            final(self).windows == old(self).windows,
            final(self).stage == old(self).stage,
            final(self).pass_end == old(self).pass_end,
            final(self).pending == old(self).pending,
    {
        let resume: bool = self.procs_should_be_stopped && !should_be_stopped && self.can_suspend;
        self.procs_should_be_stopped = should_be_stopped;
        resume
    }

    /// Whom a signal to all workers goes to, one target for each record in
    /// order: the remembered process id where there is one, else whatever
    /// the record's pid file holds.
    pub fn send_signal_to_children(&self) -> (r: Vec<SignalTarget>)
        ensures
            r@.len() == self.procs@.len(),
            forall|i: int|
                0 <= i < r@.len() ==> #[trigger] r@[i] == match self.procs@[i].last_expected_pid {
                    Some(pid) => SignalTarget::Pid(pid),
                    None => SignalTarget::PidFileOf(i as usize),
                },
    {
        let mut targets: Vec<SignalTarget> = Vec::new();
        let mut i: usize = 0;
        while i < self.procs.len()
            invariant
                i <= self.procs@.len(),
                targets@.len() == i,
                forall|k: int|
                    0 <= k < i ==> #[trigger] targets@[k] == match self.procs@[k].last_expected_pid {
                        Some(pid) => SignalTarget::Pid(pid),
                        None => SignalTarget::PidFileOf(k as usize),
                    },
            decreases self.procs.len() - i,
        {
            match self.procs[i].get_last_expected_pid_fast() {
                Some(pid) => targets.push(SignalTarget::Pid(pid)),
                None => targets.push(SignalTarget::PidFileOf(i)),
            }
            i = i + 1;
        }
        targets
    }

    /// How often each worker has been started: name and count of every
    /// record, in order.
    pub fn get_proc_restart_counts(&self) -> (r: Vec<(String, u32)>)
        ensures
            r@.len() == self.procs@.len(),
            forall|i: int|
                0 <= i < r@.len() ==> (#[trigger] r@[i]).0@ == self.procs@[i].bin_name@ && r@[i].1
                    == self.procs@[i].proc_restart_count,
    {
        let mut counts: Vec<(String, u32)> = Vec::new();
        let mut i: usize = 0;
        while i < self.procs.len()
            invariant
                i <= self.procs@.len(),
                counts@.len() == i,
                forall|k: int|
                    0 <= k < i ==> (#[trigger] counts@[k]).0@ == self.procs@[k].bin_name@
                        && counts@[k].1 == self.procs@[k].proc_restart_count,
            decreases self.procs.len() - i,
        {
            counts.push((self.procs[i].bin_name.clone(), self.procs[i].proc_restart_count));
            i = i + 1;
        }
        counts
    }

    /// The output tail of each worker: name and tail of every record, in
    /// order.
    pub fn get_proc_outputs(&self) -> (r: Vec<(String, String)>)
        ensures
            r@.len() == self.procs@.len(),
            forall|i: int|
                0 <= i < r@.len() ==> (#[trigger] r@[i]).0@ == self.procs@[i].bin_name@ && r@[i].1@
                    == self.procs@[i].proc_output_txt@,
    {
        let mut tails: Vec<(String, String)> = Vec::new();
        let mut i: usize = 0;
        while i < self.procs.len()
            invariant
                i <= self.procs@.len(),
                tails@.len() == i,
                forall|k: int|
                    0 <= k < i ==> (#[trigger] tails@[k]).0@ == self.procs@[k].bin_name@
                        && tails@[k].1@ == self.procs@[k].proc_output_txt@,
            decreases self.procs.len() - i,
        {
            tails.push((self.procs[i].bin_name.clone(), self.procs[i].proc_output_txt.clone()));
            i = i + 1;
        }
        tails
    }
}

fn goes_on_exec(step: SupervisorStep) -> (turn: SupervisorTurn)
    ensures
        turn == goes_on(step),
{
    SupervisorTurn { failed: None, step }
}

/// Records that keep their names stay distinct and are found in the
/// same places.
pub proof fn lemma_names_kept(before: Seq<OneTrackedProc>, after: Seq<OneTrackedProc>)
    requires
        before.len() == after.len(),
        forall|i: int| 0 <= i < before.len() ==> (#[trigger] after[i]).bin_name@ == before[i].bin_name@,
    ensures
        names_distinct(before) ==> names_distinct(after),
        forall|name: Seq<char>| #[trigger] record_of(after, name) == record_of(before, name),
    decreases before.len(),
{
    if before.len() > 0 {
        lemma_names_kept(before.drop_last(), after.drop_last());
        assert forall|name: Seq<char>| #[trigger]
            record_of(after, name) == record_of(before, name) by {
            assert(record_of(after.drop_last(), name) == record_of(before.drop_last(), name));
        }
    }
}

/// `record_of` on a prefix that holds no such record decides by the next
/// record.
pub proof fn lemma_record_of_prefix(procs: Seq<OneTrackedProc>, name: Seq<char>, k: int)
    requires
        0 < k <= procs.len(),
        record_of(procs.take(k - 1), name) is None,
    ensures
        procs[k - 1].bin_name@ == name ==> record_of(procs, name) == Some(k - 1),
        procs[k - 1].bin_name@ != name ==> record_of(procs.take(k), name) is None,
    decreases procs.len() - k,
{
    assert(procs.take(k).drop_last() =~= procs.take(k - 1));
    if procs[k - 1].bin_name@ == name {
        lemma_record_of_extends(procs, name, k);
    }
}

/// A record found in a prefix is the one found in the whole.
pub proof fn lemma_record_of_extends(procs: Seq<OneTrackedProc>, name: Seq<char>, k: int)
    requires
        0 <= k <= procs.len(),
        record_of(procs.take(k), name) is Some,
    ensures
        record_of(procs, name) == record_of(procs.take(k), name),
    decreases procs.len() - k,
{
    if k < procs.len() {
        assert(procs.take(k + 1).drop_last() =~= procs.take(k));
        lemma_record_of_extends(procs, name, k + 1);
    } else {
        assert(procs.take(k) =~= procs);
    }
}

/// The restart count of a worker never falls, and it goes up by exactly
/// one with each start: a reply leaves the count of every record as it was,
/// but for the record whose start it reports, whose count is one higher.
pub proof fn lemma_restart_count_steps(
    before: TrackedProcs,
    after: TrackedProcs,
    reply: SupervisorReply,
    turn: SupervisorTurn,
    i: int,
)
    requires
        before.wf(),
        after.replied(&before, reply, turn),
        0 <= i < before.procs@.len(),
    ensures
        i < after.procs@.len(),
        after.procs@[i].bin_name@ == before.procs@[i].bin_name@,
        after.procs@[i].proc_restart_count == before.procs@[i].proc_restart_count + if (
        before.stage matches PassStage::Respawn { worker, proc } && proc == i)
            && reply is Spawned {
            1int
        } else {
            0int
        },
{
}

/// A worker that is started for the first time enters the records with a
/// restart count of one.
pub proof fn lemma_first_start_counts_one(
    before: TrackedProcs,
    after: TrackedProcs,
    worker: usize,
    pid: u32,
    turn: SupervisorTurn,
)
    requires
        before.wf(),
        before.stage == (PassStage::FirstSpawn { worker }),
        after.replied(&before, SupervisorReply::Spawned(pid), turn),
    ensures
        after.procs@.len() == before.procs@.len() + 1,
        after.procs@.last().bin_name@ == before.worker_name(worker as int),
        after.procs@.last().proc_restart_count == 1,
{
}

/// Over any run of the supervisor every record stays in its place, for the
/// same worker, and its restart count never falls.
pub proof fn lemma_restart_counts_never_fall(states: Seq<TrackedProcs>, i: int, j: int)
    requires
        0 <= i <= j < states.len(),
        forall|k: int| 0 <= k < states.len() - 1 ==> (#[trigger] states[k + 1]).continues(&states[k]),
    ensures
        states[j].continues(&states[i]),
    decreases j - i,
{
    if i < j {
        lemma_restart_counts_never_fall(states, i, j - 1);
        assert(states[j - 1 + 1].continues(&states[j - 1]));
        assert forall|r: int| 0 <= r < states[i].procs@.len() implies (
        #[trigger] states[j].procs@[r]).same_worker(&states[i].procs@[r])
            && states[j].procs@[r].proc_restart_count >= states[i].procs@[r].proc_restart_count by {
            assert(states[j - 1].procs@[r].same_worker(&states[i].procs@[r]));
            assert(states[j].procs@[r].same_worker(&states[j - 1].procs@[r]));
        }
    }
}

/// How many steps a pass can still take at most.
pub open spec fn pass_budget(stage: PassStage, pass_end: usize) -> nat {
    match stage {
        PassStage::Idle => 0,
        PassStage::Outputs { worker, proc } => (6 * (pass_end - worker) + 5) as nat,
        PassStage::Binary { worker } => (6 * (pass_end - worker) + 5) as nat,
        PassStage::PidFile { worker, proc } => (6 * (pass_end - worker) + 4) as nat,
        PassStage::Process { worker, proc, pid } => (6 * (pass_end - worker) + 3) as nat,
        PassStage::Respawn { worker, proc } => (6 * (pass_end - worker) + 2) as nat,
        PassStage::FirstSpawn { worker } => (6 * (pass_end - worker) + 2) as nat,
    }
}

/// Every pass ends: each reply brings the pass closer to its end, and the
/// pass is over exactly when the step says so.
pub proof fn lemma_pass_ends(
    before: TrackedProcs,
    after: TrackedProcs,
    reply: SupervisorReply,
    turn: SupervisorTurn,
)
    requires
        before.wf(),
        after.pass_end == before.pass_end,
        after.tracked_proc_args == before.tracked_proc_args,
        after.replied(&before, reply, turn),
    ensures
        before.stage != PassStage::Idle ==> pass_budget(after.stage, after.pass_end)
            < pass_budget(before.stage, before.pass_end),
        after.stage == PassStage::Idle <==> turn.step == SupervisorStep::Done,
{
}

/// A pass leaves no worker out, whatever fails: after a reply the pass
/// stands at the worker that it stood at or takes up the one behind it,
/// and it is over only behind the last worker that it covers. A failure
/// changes no restart count and always moves the pass on to the next
/// worker.
pub proof fn lemma_pass_skips_no_worker(
    before: TrackedProcs,
    after: TrackedProcs,
    reply: SupervisorReply,
    turn: SupervisorTurn,
    worker: usize,
)
    requires
        before.wf(),
        after.pass_end == before.pass_end,
        after.tracked_proc_args == before.tracked_proc_args,
        after.replied(&before, reply, turn),
        stage_worker(before.stage) == Some(worker),
    ensures
        match stage_worker(after.stage) {
            Some(next) => next == worker || (next == worker + 1 && after.stage
                == after.entry_stage(worker + 1)),
            None => worker + 1 == before.pass_end,
        },
        turn.failed is Some ==> {
            &&& after.stage == after.entry_stage(worker + 1)
            &&& after.procs@.len() == before.procs@.len()
            &&& forall|i: int|
                0 <= i < before.procs@.len() ==> (#[trigger] after.procs@[i]).proc_restart_count
                    == before.procs@[i].proc_restart_count
        },
{
    if after.procs@.len() == before.procs@.len() {
        lemma_names_kept_by(before, after, reply, turn);
    }
}

/// A reply that adds no record leaves every worker's record where it was.
proof fn lemma_names_kept_by(
    before: TrackedProcs,
    after: TrackedProcs,
    reply: SupervisorReply,
    turn: SupervisorTurn,
)
    requires
        before.wf(),
        after.tracked_proc_args == before.tracked_proc_args,
        after.replied(&before, reply, turn),
        after.procs@.len() == before.procs@.len(),
    ensures
        forall|name: Seq<char>| #[trigger]
            record_of(after.procs@, name) == record_of(before.procs@, name),
{
    assert forall|i: int| 0 <= i < before.procs@.len() implies (#[trigger] after.procs@[i]).bin_name@
        == before.procs@[i].bin_name@ by {
        lemma_restart_count_steps(before, after, reply, turn, i);
    }
    lemma_names_kept(before.procs@, after.procs@);
}

/// A worker that a pass leaves without a failure is made sure of: it has
/// a record, and it was found alive or was started by the reply that moved
/// the pass on.
pub proof fn lemma_worker_left_is_ensured(
    before: TrackedProcs,
    after: TrackedProcs,
    reply: SupervisorReply,
    turn: SupervisorTurn,
    worker: usize,
)
    requires
        before.wf(),
        after.tracked_proc_args == before.tracked_proc_args,
        after.replied(&before, reply, turn),
        stage_worker(before.stage) == Some(worker),
        stage_worker(after.stage) != Some(worker),
        turn.failed is None,
    ensures
        record_of(after.procs@, before.worker_name(worker as int)) is Some,
        reply == SupervisorReply::Process(ProcessState::Alive) || reply is Spawned,
        reply is Spawned ==> {
            let i = record_of(after.procs@, before.worker_name(worker as int))->0;
            &&& 0 <= i < after.procs@.len()
            &&& after.procs@[i].last_expected_pid == Some(reply->Spawned_0)
            &&& after.procs@[i].proc_restart_count >= 1
        },
{
    let name = before.worker_name(worker as int);
    lemma_record_of(after.procs@, name);
    lemma_record_of(before.procs@, name);
    match before.stage {
        PassStage::FirstSpawn { worker } => {
            assert(after.procs@.last().bin_name@ == name);
            assert(after.procs@[after.procs@.len() - 1].bin_name@ == name);
        },
        PassStage::Respawn { worker, proc } => {
            assert(after.procs@[proc as int].bin_name@ == name);
            lemma_names_kept_by(before, after, reply, turn);
        },
        PassStage::Process { worker, proc, pid } => {
            assert(after.procs@[proc as int].bin_name@ == name);
        },
        _ => {},
    }
}

/// How often record `i` was started by the first `k` steps of a run.
/// `steps[j]` is the reply that led from `states[j]` to `states[j + 1]`,
/// `None` for any other operation in between.
pub open spec fn starts_of(
    states: Seq<TrackedProcs>,
    steps: Seq<Option<SupervisorReply>>,
    i: int,
    k: int,
) -> nat
    decreases k,
{
    if k <= 0 {
        0
    } else {
        starts_of(states, steps, i, k - 1) + if (states[k - 1].stage matches PassStage::Respawn {
            worker,
            proc,
        } && proc == i) && steps[k - 1] matches Some(SupervisorReply::Spawned(_)) {
            1nat
        } else {
            0nat
        }
    }
}

/// The states of a run fit its steps: a reply leads from each state to the
/// next as `replied` says, and any other operation keeps the records.
pub open spec fn run_fits(
    states: Seq<TrackedProcs>,
    steps: Seq<Option<SupervisorReply>>,
    turns: Seq<SupervisorTurn>,
) -> bool {
    &&& states.len() == steps.len() + 1
    &&& turns.len() == steps.len()
    &&& forall|j: int|
        0 <= j < steps.len() ==> (#[trigger] states[j]).wf() && match steps[j] {
            Some(reply) => states[j + 1].replied(&states[j], reply, turns[j]),
            None => states[j + 1].procs == states[j].procs,
        }
}

/// Over any run of the supervisor the restart count of a worker goes up by
/// exactly the number of times that the worker was started: registering,
/// beginning passes, the latch and every reply that reports no start leave
/// it as it was.
pub proof fn lemma_restart_count_tallies(
    states: Seq<TrackedProcs>,
    steps: Seq<Option<SupervisorReply>>,
    turns: Seq<SupervisorTurn>,
    i: int,
    k: int,
)
    requires
        run_fits(states, steps, turns),
        0 <= k <= steps.len(),
        0 <= i < states[0].procs@.len(),
    ensures
        i < states[k].procs@.len(),
        states[k].procs@[i].bin_name@ == states[0].procs@[i].bin_name@,
        states[k].procs@[i].proc_restart_count == states[0].procs@[i].proc_restart_count
            + starts_of(states, steps, i, k),
    decreases k,
{
    if k > 0 {
        lemma_restart_count_tallies(states, steps, turns, i, k - 1);
        assert(states[k - 1].wf());
        match steps[k - 1] {
            Some(reply) => {
                lemma_restart_count_steps(states[k - 1], states[k], reply, turns[k - 1], i);
            },
            None => {},
        }
    }
}

} // verus!
