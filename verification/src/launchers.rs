//! The record that the supervisor keeps of one worker process.

use crate::tail::{
    advanced_cursor, byte_len, capped_text, enforce_cap, fresh_part, fresh_text,
    OUTPUT_TAIL_CAP,
};
use crate::text::{decimal, decimal_digits, parse_decimal, parse_unsigned, push_decimal};
use vstd::prelude::*;
use vstd::utf8::encode_utf8;

verus! {

/// What the operating system's process table says of a process id.
#[derive(Clone, Copy, Debug, PartialEq, Eq, Structural)]
pub enum ProcessState {
    /// No process has the id.
    Missing,
    /// The process has exited and waits to be reaped.
    Defunct,
    /// The process exists in any other state.
    Alive,
}

/// Which child handles the supervisor should reap.
#[derive(Clone, Copy, Debug, PartialEq, Eq, Structural)]
pub enum ReapAction {
    /// None.
    Nothing,
    /// The child with this process id: wait for it and let go of its handle.
    WaitFor(u32),
    /// Every held child whose own status says that it has exited.
    SweepExited,
}

/// The outcome of a liveness check.
#[derive(Clone, Copy, Debug, PartialEq, Eq, Structural)]
pub struct RunCheck {
    /// Whether the worker counts as running.
    pub running: bool,
    /// The reaping that the check calls for.
    pub reap: ReapAction,
}

/// What a worker has newly written, to be mirrored to the supervisor's own
/// output streams.
pub struct OutputDelta {
    /// New text on the worker's standard output.
    pub stdout: String,
    /// New text on the worker's standard error.
    pub stderr: String,
}

/// The pid file does not hold a process id.
#[derive(Clone, Copy, Debug, PartialEq, Eq, Structural)]
pub struct PidFileMalformed;

/// The line that marks a new process in a worker's output tail.
pub open spec fn banner(pid: nat) -> Seq<char> {
    "================ PID "@ + decimal_digits(pid) + " ================\n"@
}

/// What a liveness check concludes from the recorded process id and the
/// state of that process: a worker runs only if its id is recorded and the
/// process is alive. A defunct process is to be reaped; where the process
/// is gone, every exited child is.
pub open spec fn run_check(expected_pid: Option<u32>, state: ProcessState) -> RunCheck {
    match expected_pid {
        None => RunCheck { running: false, reap: ReapAction::Nothing },
        Some(pid) => match state {
            ProcessState::Alive => RunCheck { running: true, reap: ReapAction::Nothing },
            ProcessState::Defunct => RunCheck { running: false, reap: ReapAction::WaitFor(pid) },
            ProcessState::Missing => RunCheck { running: false, reap: ReapAction::SweepExited },
        },
    }
}

/// The process id that a pid file with this content records, if it is one.
pub open spec fn pid_of(content: Seq<char>) -> Option<nat> {
    parse_unsigned(encode_utf8(content), u32::MAX as nat)
}

/// The state kept for one tracked worker. File names are relative to
/// `proc_track_dir`.
pub struct OneTrackedProc {
    /// The directory that holds the worker's pid and output files.
    pub proc_track_dir: String,
    /// The worker's name.
    pub bin_name: String,
    /// The executable that is run for the worker.
    pub filesystem_bin_path: String,
    /// The name of the file that holds the process id.
    pub filesystem_pid_filepath: String,
    /// The name of the file that receives the worker's standard output.
    pub filesystem_stdout_filepath: String,
    /// How many bytes of the standard output file are in the tail.
    pub filesystem_stdout_read_bytes: usize,
    /// The name of the file that receives the worker's standard error.
    pub filesystem_stderr_filepath: String,
    /// How many bytes of the standard error file are in the tail.
    pub filesystem_stderr_read_bytes: usize,
    /// How often the worker has been started.
    pub proc_restart_count: u32,
    /// The most recent output of the worker, banners included.
    pub proc_output_txt: String,
    /// The process id last recorded, kept for signalling without a read.
    pub last_expected_pid: Option<u32>,
}

impl OneTrackedProc {
    /// The record is well formed: its files are named after the worker and
    /// its output tail fits the cap.
    pub open spec fn wf(&self) -> bool {
        &&& self.filesystem_pid_filepath@ == self.bin_name@ + "-pid.txt"@
        &&& self.filesystem_stdout_filepath@ == self.bin_name@ + "-stdout.txt"@
        &&& self.filesystem_stderr_filepath@ == self.bin_name@ + "-stderr.txt"@
        &&& encode_utf8(self.proc_output_txt@).len() <= OUTPUT_TAIL_CAP
    }

    /// `other` describes the same worker: directory, name, executable and
    /// file names agree.
    pub open spec fn same_worker(&self, other: &Self) -> bool {
        &&& self.proc_track_dir@ == other.proc_track_dir@
        &&& self.bin_name@ == other.bin_name@
        &&& self.filesystem_bin_path@ == other.filesystem_bin_path@
        &&& self.filesystem_pid_filepath@ == other.filesystem_pid_filepath@
        &&& self.filesystem_stdout_filepath@ == other.filesystem_stdout_filepath@
        &&& self.filesystem_stderr_filepath@ == other.filesystem_stderr_filepath@
    }

    /// The record has never been started: no output, no process id, no
    /// restart.
    pub open spec fn fresh(&self) -> bool {
        &&& self.filesystem_stdout_read_bytes == 0
        &&& self.filesystem_stderr_read_bytes == 0
        &&& self.proc_restart_count == 0
        &&& self.proc_output_txt@ == Seq::<char>::empty()
        &&& self.last_expected_pid is None
    }

    /// This record is `before` after the worker's new output was taken
    /// over: the new text of each file is at the end of the tail, standard
    /// output first, the tail is under its cap, and each cursor is at the
    /// end of its file if the file has grown.
    pub open spec fn refreshed_from(
        &self,
        before: &Self,
        stdout: Option<Seq<char>>,
        stderr: Option<Seq<char>>,
    ) -> bool {
        &&& self.same_worker(before)
        &&& self.proc_restart_count == before.proc_restart_count
        &&& self.last_expected_pid == before.last_expected_pid
        &&& self.proc_output_txt@ == capped_text(
            before.proc_output_txt@ + fresh_output(
                stdout,
                before.filesystem_stdout_read_bytes as nat,
            ) + fresh_output(stderr, before.filesystem_stderr_read_bytes as nat),
        )
        &&& self.filesystem_stdout_read_bytes == cursor_after(
            stdout,
            before.filesystem_stdout_read_bytes as nat,
        )
        &&& self.filesystem_stderr_read_bytes == cursor_after(
            stderr,
            before.filesystem_stderr_read_bytes as nat,
        )
    }

    /// This record is `before` after the worker was started as process
    /// `pid`.
    pub open spec fn spawned_from(&self, before: &Self, pid: u32) -> bool {
        &&& self.same_worker(before)
        &&& self.proc_restart_count == before.proc_restart_count + 1
        &&& self.last_expected_pid == Some(pid)
        &&& self.filesystem_stdout_read_bytes == 0
        &&& self.filesystem_stderr_read_bytes == 0
        &&& self.proc_output_txt@ == capped_text(before.proc_output_txt@ + banner(pid as nat))
    }

    /// This record is `before` but for the remembered process id, which is
    /// `pid`.
    pub open spec fn with_pid_from(&self, before: &Self, pid: Option<u32>) -> bool {
        &&& self.same_worker(before)
        &&& self.proc_restart_count == before.proc_restart_count
        &&& self.last_expected_pid == pid
        &&& self.filesystem_stdout_read_bytes == before.filesystem_stdout_read_bytes
        &&& self.filesystem_stderr_read_bytes == before.filesystem_stderr_read_bytes
        &&& self.proc_output_txt@ == before.proc_output_txt@
    }

    /// A record for the worker `bin_name` that has not been started yet.
    pub fn new(proc_track_dir: &str, bin_name: &str, filesystem_bin_path: String) -> (r: Self)
        ensures
            r.wf(),
            r.proc_track_dir@ == proc_track_dir@,
            r.bin_name@ == bin_name@,
            r.filesystem_bin_path@ == filesystem_bin_path@,
            r.fresh(),
    {
        let mut pid_file = String::from_str(bin_name);
        pid_file.append("-pid.txt");
        let mut stdout_file = String::from_str(bin_name);
        stdout_file.append("-stdout.txt");
        let mut stderr_file = String::from_str(bin_name);
        stderr_file.append("-stderr.txt");
        let tail = String::new();
        OneTrackedProc {
            proc_track_dir: String::from_str(proc_track_dir),
            bin_name: String::from_str(bin_name),
            filesystem_bin_path,
            filesystem_pid_filepath: pid_file,
            filesystem_stdout_filepath: stdout_file,
            filesystem_stdout_read_bytes: 0,
            filesystem_stderr_filepath: stderr_file,
            filesystem_stderr_read_bytes: 0,
            proc_restart_count: 0,
            proc_output_txt: tail,
            last_expected_pid: None,
        }
    }

    /// The process id that the pid file records. `pid_file` is the file's
    /// content, `None` where the file does not exist. An id that was read
    /// is remembered for `get_last_expected_pid_fast`.
    pub fn get_expected_pid(&mut self, pid_file: Option<&str>) -> (r: Result<
        Option<u32>,
        PidFileMalformed,
    >)
        ensures
            r == recorded_pid(view_of(pid_file)),
            final(self).with_pid_from(
                old(self),
                match r {
                    Ok(Some(pid)) => Some(pid),
                    _ => old(self).last_expected_pid,
                },
            ),
            old(self).wf() ==> final(self).wf(),
    {
        let r = read_pid(pid_file);
        match r {
            Ok(Some(pid)) => {
                self.last_expected_pid = Some(pid);
            },
            _ => {},
        }
        r
    }

    /// Forgets the remembered process id, the process being gone.
    pub fn forget_pid(&mut self)
        ensures
            final(self).with_pid_from(old(self), None),
            old(self).wf() ==> final(self).wf(),
    {
        self.last_expected_pid = None;
    }

    /// The process id last recorded, without a look at the pid file.
    pub fn get_last_expected_pid_fast(&self) -> (r: Option<u32>)
        ensures
            r == self.last_expected_pid,
    {
        self.last_expected_pid
    }

    /// Whether the worker runs, given the id that its pid file records and
    /// what the process table says of that id, and what is to be reaped.
    pub fn is_running(&self, expected_pid: Option<u32>, state: ProcessState) -> (r: RunCheck)
        ensures
            r == run_check(expected_pid, state),
    {
        match expected_pid {
            None => RunCheck { running: false, reap: ReapAction::Nothing },
            Some(pid) => match state {
                ProcessState::Alive => RunCheck { running: true, reap: ReapAction::Nothing },
                ProcessState::Defunct => RunCheck {
                    running: false,
                    reap: ReapAction::WaitFor(pid),
                },
                ProcessState::Missing => RunCheck {
                    running: false,
                    reap: ReapAction::SweepExited,
                },
            },
        }
    }

    /// Takes over what the worker has written since the last call. `stdout`
    /// and `stderr` are the contents of the two output files, `None` for
    /// one that could not be read. The new text of each goes to the end of
    /// the tail, standard output first, and the tail is brought under its
    /// cap. Returns the new text.
    pub fn update_proc_output_txt_from_files(
        &mut self,
        stdout: Option<&str>,
        stderr: Option<&str>,
    ) -> (r: OutputDelta)
        requires
            old(self).wf(),
        ensures
            final(self).wf(),
            final(self).refreshed_from(old(self), view_of(stdout), view_of(stderr)),
            r.stdout@ == fresh_output(
                view_of(stdout),
                old(self).filesystem_stdout_read_bytes as nat,
            ),
            r.stderr@ == fresh_output(
                view_of(stderr),
                old(self).filesystem_stderr_read_bytes as nat,
            ),
    {
        let mut new_stdout = String::new();
        let mut new_stderr = String::new();
        match stdout {
            Some(content) => {
                let fresh = fresh_part(content, self.filesystem_stdout_read_bytes);
                self.proc_output_txt.append(fresh);
                new_stdout.append(fresh);
                let n: usize = byte_len(content);
                if n > self.filesystem_stdout_read_bytes {
                    self.filesystem_stdout_read_bytes = n;
                }
            },
            None => {},
        }
        match stderr {
            Some(content) => {
                let fresh = fresh_part(content, self.filesystem_stderr_read_bytes);
                self.proc_output_txt.append(fresh);
                new_stderr.append(fresh);
                let n: usize = byte_len(content);
                if n > self.filesystem_stderr_read_bytes {
                    self.filesystem_stderr_read_bytes = n;
                }
            },
            None => {},
        }
        enforce_cap(&mut self.proc_output_txt);
        OutputDelta { stdout: new_stdout, stderr: new_stderr }
    }

    /// Records that the worker was started as process `pid`: the id is
    /// remembered, both cursors go back to the start of the fresh output
    /// files, the banner of the new process goes to the end of the tail and
    /// the restart count goes up by one. Returns the content for the pid
    /// file.
    pub fn spawn_proc(&mut self, pid: u32) -> (r: String)
        requires
            old(self).wf(),
            old(self).proc_restart_count < u32::MAX,
        ensures
            final(self).wf(),
            final(self).spawned_from(old(self), pid),
            r@ == decimal_digits(pid as nat),
    {
        self.last_expected_pid = Some(pid);
        self.proc_restart_count = self.proc_restart_count + 1;
        self.proc_output_txt.append("================ PID ");
        push_decimal(&mut self.proc_output_txt, pid as u128);
        self.proc_output_txt.append(" ================\n");
        assert(self.proc_output_txt@ =~= old(self).proc_output_txt@ + banner(pid as nat));
        enforce_cap(&mut self.proc_output_txt);
        self.filesystem_stdout_read_bytes = 0;
        self.filesystem_stderr_read_bytes = 0;
        decimal(pid as u128)
    }
}

/// The characters of a text that may be missing.
pub open spec fn view_of(content: Option<&str>) -> Option<Seq<char>> {
    match content {
        Some(c) => Some(c@),
        None => None,
    }
}

/// The new text of an output file with this content, read so far up to
/// byte `cursor`; none where the file could not be read.
pub open spec fn fresh_output(content: Option<Seq<char>>, cursor: nat) -> Seq<char> {
    match content {
        Some(c) => fresh_text(c, cursor),
        None => Seq::empty(),
    }
}

/// The cursor of an output file after its content was taken over.
pub open spec fn cursor_after(content: Option<Seq<char>>, cursor: nat) -> nat {
    match content {
        Some(c) => advanced_cursor(c, cursor),
        None => cursor,
    }
}

/// What a pid file says: no id where the file is missing, the id that its
/// content writes, or that the content is no process id.
pub open spec fn recorded_pid(pid_file: Option<Seq<char>>) -> Result<
    Option<u32>,
    PidFileMalformed,
> {
    match pid_file {
        None => Ok(None),
        Some(content) => match pid_of(content) {
            Some(pid) => Ok(Some(pid as u32)),
            None => Err(PidFileMalformed),
        },
    }
}

/// Reads the process id that a pid file records. `pid_file` is the file's
/// content, `None` where the file does not exist.
pub fn read_pid(pid_file: Option<&str>) -> (r: Result<Option<u32>, PidFileMalformed>)
    ensures
        r == recorded_pid(view_of(pid_file)),
{
    match pid_file {
        None => Ok(None),
        Some(content) => match parse_decimal(content, 0xffff_ffff) {
            Some(v) => Ok(Some(v as u32)),
            None => Err(PidFileMalformed),
        },
    }
}

} // verus!
