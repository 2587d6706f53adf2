//! The server's settings: what the environment may override and what the
//! workers are started with.

use crate::supervisor::TrackedProcs;
use crate::text::{parse_decimal, parse_unsigned};
use vstd::prelude::*;
use vstd::utf8::encode_utf8;

verus! {

/// The TCP port that both listeners use unless the environment names one.
pub const DEFAULT_PORT: u16 = 9050;

/// The most channels that one remote address may hold at a time.
pub const MAX_CHANNELS_PER_IP: u32 = 128;

/// The most connections that are being accepted at a time.
pub const MAX_PENDING_ACCEPTS: usize = 10;

/// The name of the worker that makes pictures.
pub const IMAGE_WORKER: &'static str = "oliana_images";

/// The name of the worker that makes text.
pub const TEXT_WORKER: &'static str = "oliana_text";

/// The work directory of image jobs, within the tracking directory.
pub const IMAGE_WORKDIR: &'static str = "image-procesing";

/// The work directory of text jobs, within the tracking directory.
pub const TEXT_WORKDIR: &'static str = "text-procesing";

/// The share of the GPU's memory that each worker is told to keep to,
/// unless the environment already says.
pub const DEFAULT_MEM_FRACT: &'static str = "0.40";

/// The two directories that the server works with.
pub struct Directories {
    /// Where the executables of the workers are looked for.
    pub bin: String,
    /// Where the pid and output files of the workers and the work
    /// directories of the jobs are kept.
    pub track: String,
}

/// The directory that both directories default to: the directory `target`
/// under the current directory if there is one, else the current directory.
pub open spec fn base_dir(cwd: Seq<char>, cwd_target: Option<Seq<char>>) -> Seq<char> {
    match cwd_target {
        Some(target) => target,
        None => cwd,
    }
}

/// The binary directory: the one that the environment names, if that
/// directory exists, else the default.
pub open spec fn bin_dir_of(
    base: Seq<char>,
    named: Option<Seq<char>>,
    named_exists: bool,
) -> Seq<char> {
    match named {
        Some(dir) => if named_exists {
            dir
        } else {
            base
        },
        None => base,
    }
}

/// The tracking directory: the one that the environment names, else the
/// default.
pub open spec fn track_dir_of(base: Seq<char>, named: Option<Seq<char>>) -> Seq<char> {
    match named {
        Some(dir) => dir,
        None => base,
    }
}

/// The characters of a text that may be missing.
pub open spec fn text_of(value: Option<&str>) -> Option<Seq<char>> {
    match value {
        Some(text) => Some(text@),
        None => None,
    }
}

/// Chooses the two directories. `cwd` is the current directory and
/// `cwd_target` the directory `target` under it, `None` if there is none.
/// `bin_dir` is the value of `OLIANA_BIN_DIR` in the environment and
/// `bin_dir_exists` says whether that directory exists; `tracked_proc_dir`
/// is the value of `OLIANA_TRACKED_PROC_DIR`.
pub fn choose_directories(
    cwd: &str,
    cwd_target: Option<&str>,
    bin_dir: Option<&str>,
    bin_dir_exists: bool,
    tracked_proc_dir: Option<&str>,
) -> (r: Directories)
    ensures
        r.bin@ == bin_dir_of(
            base_dir(cwd@, text_of(cwd_target)),
            text_of(bin_dir),
            bin_dir_exists,
        ),
        r.track@ == track_dir_of(base_dir(cwd@, text_of(cwd_target)), text_of(tracked_proc_dir)),
{
    let base: &str = match cwd_target {
        Some(target) => target,
        None => cwd,
    };
    let bin: &str = match bin_dir {
        Some(dir) => if bin_dir_exists {
            dir
        } else {
            base
        },
        None => base,
    };
    let track: &str = match tracked_proc_dir {
        Some(dir) => dir,
        None => base,
    };
    Directories { bin: String::from_str(bin), track: String::from_str(track) }
}

/// What a listener does with the outcome of an accept. There is no step
/// that ends the listener.
pub enum AcceptStep<T> {
    /// Serve the connection.
    Serve(T),
    /// Skip the failed accept and go on accepting.
    Skip,
}

/// Decides what a listener does with the outcome of an accept: a
/// connection is served, an error is skipped.
pub fn on_accept<T, E>(outcome: Result<T, E>) -> (r: AcceptStep<T>)
    ensures
        match outcome {
            Ok(connection) => r == AcceptStep::Serve(connection),
            Err(_) => r is Skip,
        },
{
    match outcome {
        Ok(connection) => AcceptStep::Serve(connection),
        Err(_) => AcceptStep::Skip,
    }
}

/// The port to listen on: the one that `value` writes, if it writes one.
pub open spec fn port_of(value: Option<Seq<char>>) -> u16 {
    match value {
        Some(text) => match parse_unsigned(encode_utf8(text), u16::MAX as nat) {
            Some(port) => port as u16,
            None => DEFAULT_PORT,
        },
        None => DEFAULT_PORT,
    }
}

/// The port to listen on, given the value of `PORT` in the environment.
pub fn resolve_port(value: Option<&str>) -> (r: u16)
    ensures
        r == port_of(
            match value {
                Some(text) => Some(text@),
                None => None,
            },
        ),
{
    match value {
        Some(text) => match parse_decimal(text, 0xffff) {
            Some(port) => port as u16,
            None => DEFAULT_PORT,
        },
        None => DEFAULT_PORT,
    }
}

/// The number of threads to run on: one for each physical core, and never
/// fewer than two.
pub fn worker_threads(physical_cores: usize) -> (r: usize)
    ensures
        r == if physical_cores < 2 {
            2
        } else {
            physical_cores
        },
{
    if physical_cores < 2 {
        2
    } else {
        physical_cores
    }
}

/// The value to give `PER_PROC_MEM_FRACT` for the workers, given its value
/// in the environment: none if it has one that is not empty.
pub fn per_proc_mem_fract(existing: Option<&str>) -> (r: Option<&'static str>)
    ensures
        match existing {
            Some(text) if text@.len() > 0 => r is None,
            _ => r == Some(DEFAULT_MEM_FRACT),
        },
{
    match existing {
        Some(text) => if text.unicode_len() > 0 {
            None
        } else {
            Some(DEFAULT_MEM_FRACT)
        },
        None => Some(DEFAULT_MEM_FRACT),
    }
}

/// The character is an `f`, an `F` or a `0`.
pub open spec fn says_no(c: char) -> bool {
    c == 'f' || c == 'F' || c == '0'
}

/// The text says no: it holds an `f`, an `F` or a `0`.
pub open spec fn is_falsy(text: Seq<char>) -> bool {
    exists|i: int| 0 <= i < text.len() && says_no(#[trigger] text[i])
}

/// Whether a server is run on this host, given the value of
/// `RUN_LOCAL_SERVER` in the environment: yes, unless the value says no.
pub fn run_local_server(value: Option<&str>) -> (r: bool)
    ensures
        r == match value {
            Some(text) => !is_falsy(text@),
            None => true,
        },
{
    match value {
        None => true,
        Some(text) => {
            let n: usize = text.unicode_len();
            let mut i: usize = 0;
            while i < n
                invariant
                    i <= n,
                    n == text@.len(),
                    value == Some(text),
                    forall|j: int| 0 <= j < i ==> !says_no(#[trigger] text@[j]),
                decreases n - i,
            {
                let c: char = text.get_char(i);
                if c == 'f' || c == 'F' || c == '0' {
                    return false;
                }
                i = i + 1;
            }
            true
        },
    }
}

/// Registers the two workers of the server, the one for pictures first,
/// each with its work directory as its argument.
pub fn register_workers(procs: &mut TrackedProcs, image_workdir: &str, text_workdir: &str)
    requires
        old(procs).wf(),
    ensures
        final(procs).wf(),
        final(procs).registered() == old(procs).registered().push(
            (IMAGE_WORKER@, seq!["--workdir"@, image_workdir@]),
        ).push((TEXT_WORKER@, seq!["--workdir"@, text_workdir@])),
        final(procs).procs == old(procs).procs,
        final(procs).stage == old(procs).stage,
        final(procs).procs_should_be_stopped == old(procs).procs_should_be_stopped,
{
    let image_args: [&str; 2] = ["--workdir", image_workdir];
    procs.register_tracked_proc(IMAGE_WORKER, &image_args);
    assert(Seq::new(image_args@.len(), |k: int| image_args@[k]@) =~= seq![
        "--workdir"@,
        image_workdir@,
    ]);
    let text_args: [&str; 2] = ["--workdir", text_workdir];
    procs.register_tracked_proc(TEXT_WORKER, &text_args);
    assert(Seq::new(text_args@.len(), |k: int| text_args@[k]@) =~= seq![
        "--workdir"@,
        text_workdir@,
    ]);
}

} // verus!
