//! A client's session: the nonces of its text and image jobs, the cursor of
//! the text stream, and the dialogue that begins a job.
//!
//! To begin a job the session names one file operation after the other, a
//! `BeginStep::Ask`; the caller carries each out and answers with an
//! `IoReply`, until the step is `BeginStep::Reply` with the diagnostic for
//! the client.

use crate::idle::IdleController;
use crate::json::{
    image_descriptor, image_input_json, json_string, text_descriptor, text_input_json,
};
use crate::supervisor::TrackedProcs;
use crate::text::{decimal_digits, push_decimal};
use vstd::prelude::*;

verus! {

/// The two kinds of job; each has its own work directory and nonces.
#[derive(Clone, Copy, Debug, PartialEq, Eq, Structural)]
pub enum JobKind {
    Text,
    Image,
}

/// The files of a job.
#[derive(Clone, Copy, Debug, PartialEq, Eq, Structural)]
pub enum Artifact {
    /// The descriptor that the worker reads, `{nonce}.json`.
    Input,
    /// Text that the worker writes, `{nonce}.txt`: the reply of a text job,
    /// the error message of an image job.
    Text,
    /// The picture of an image job, `{nonce}.png`.
    Picture,
    /// The marker that a text reply is complete, `{nonce}.done`.
    Done,
}

/// One file of one job, in the work directory of its kind.
#[derive(Clone, Copy, Debug, PartialEq, Eq, Structural)]
pub struct JobFile {
    pub kind: JobKind,
    pub nonce: u64,
    pub artifact: Artifact,
}

/// A file operation that the session asks for.
#[derive(Clone, Copy, Debug, PartialEq, Eq, Structural)]
pub enum IoRequest {
    /// Does the file exist? Answer with `Flag`, or `Failed`.
    Exists(JobFile),
    /// Remove the file. Answer with `Done`, or `Failed`.
    Remove(JobFile),
    /// Create the file and write the job's payload to it, without ever
    /// overwriting a file. Answer with `Done`, with `Taken` if the file
    /// exists already, or with `Failed`.
    Write(JobFile),
    /// Read the whole file. Answer with `Bytes`, or `Failed`.
    Read(JobFile),
    /// How long is the file? Answer with `Size`, or `Failed`.
    Size(JobFile),
    /// Wait this many milliseconds. Answer with `Done`.
    Sleep(u64),
}

/// The outcome of a file operation.
pub enum IoReply {
    /// The operation was carried out.
    Done,
    /// The answer to a question.
    Flag(bool),
    /// What was read.
    Bytes(Vec<u8>),
    /// A length in bytes.
    Size(u64),
    /// The file to create exists already; nothing was written.
    Taken,
    /// The operation failed; the text describes the error.
    Failed(String),
}

/// Where the nonces of one kind stand: the nonce reached, and whether this
/// session has claimed it for a job.
#[derive(Clone, Copy, Debug, PartialEq, Eq, Structural)]
pub struct NonceState {
    pub nonce: u64,
    pub claimed: bool,
}

/// What the answer to a probe of the current nonce leads to.
#[derive(Clone, Copy, Debug, PartialEq, Eq, Structural)]
pub enum NonceScan {
    /// The nonce is free.
    Free(u64),
    /// The nonce is taken; the session has moved on to the next.
    Taken,
    /// The nonce is taken and there is none behind it.
    Exhausted,
}

/// How far the beginning of a job has come.
#[derive(Clone, Copy, Debug, PartialEq, Eq, Structural)]
pub enum BeginPhase {
    /// Asked whether the descriptor of the job's nonce exists.
    Probing,
    /// Asked whether this stale output exists.
    CheckingStale(Artifact),
    /// Asked to remove this stale output.
    RemovingStale(Artifact),
    /// Asked to write the descriptor.
    Writing,
    /// The client has its reply.
    Finished,
}

/// The next step in beginning a job.
pub enum BeginStep {
    /// Carry this out and answer.
    Ask(IoRequest),
    /// Hand this to the client: empty if the job has begun, else what went
    /// wrong.
    Reply(String),
}

/// What beginning a job starts with.
pub struct Begun {
    /// The job.
    pub job: BeginJob,
    /// Its first step.
    pub step: BeginStep,
    /// Whether every worker is to be continued at once.
    pub send_continue: bool,
}

/// A job that is being begun.
pub struct BeginJob {
    pub kind: JobKind,
    /// The nonce that is probed or prepared.
    pub nonce: u64,
    pub phase: BeginPhase,
    /// The descriptor to write.
    pub payload: String,
}

/// The state of one client connection.
pub struct OlianaServer {
    /// The work directory of image jobs.
    pub ai_workdir_images: String,
    /// The work directory of text jobs.
    pub ai_workdir_text: String,
    /// The nonce reached for text jobs.
    pub text_input_nonce: u64,
    /// Whether this session has claimed that nonce.
    pub text_nonce_claimed: bool,
    /// How many bytes of the current text reply the client has.
    pub generate_text_next_byte_i: usize,
    /// The nonce reached for image jobs.
    pub image_input_nonce: u64,
    /// Whether this session has claimed that nonce.
    pub image_nonce_claimed: bool,
}

/// The extension of a job file.
pub open spec fn extension(artifact: Artifact) -> Seq<char> {
    match artifact {
        Artifact::Input => ".json"@,
        Artifact::Text => ".txt"@,
        Artifact::Picture => ".png"@,
        Artifact::Done => ".done"@,
    }
}

/// The name of a job file within its work directory.
pub open spec fn file_name(nonce: u64, artifact: Artifact) -> Seq<char> {
    decimal_digits(nonce as nat) + extension(artifact)
}

/// The name of a job file within its work directory.
pub fn job_file_name(file: JobFile) -> (r: String)
    ensures
        r@ == file_name(file.nonce, file.artifact),
{
    let mut out = String::new();
    push_decimal(&mut out, file.nonce as u128);
    match file.artifact {
        Artifact::Input => out.append(".json"),
        Artifact::Text => out.append(".txt"),
        Artifact::Picture => out.append(".png"),
        Artifact::Done => out.append(".done"),
    }
    out
}

/// The nonces of a session never go back, and a nonce that was claimed
/// stays claimed for as long as it is the nonce reached.
pub open spec fn nonce_advances(a: NonceState, b: NonceState) -> bool {
    b.nonce >= a.nonce && (a.claimed && b.nonce == a.nonce ==> b.claimed)
}

/// The state after the answer to a probe of the current nonce: a nonce that
/// exists, or that this session has claimed, is left behind.
pub open spec fn scanned(a: NonceState, present: bool) -> NonceState {
    if (present || a.claimed) && a.nonce < u64::MAX {
        NonceState { nonce: (a.nonce + 1) as u64, claimed: false }
    } else {
        a
    }
}

/// What the answer to a probe of the current nonce leads to.
pub open spec fn scan_result(a: NonceState, present: bool) -> NonceScan {
    if present || a.claimed {
        if a.nonce < u64::MAX {
            NonceScan::Taken
        } else {
            NonceScan::Exhausted
        }
    } else {
        NonceScan::Free(a.nonce)
    }
}

/// The outputs that may be left over under a nonce, in the order in which
/// they are cleared away; `None` behind the last.
pub open spec fn next_stale(artifact: Artifact) -> Option<Artifact> {
    match artifact {
        Artifact::Input => Some(Artifact::Text),
        Artifact::Text => Some(Artifact::Picture),
        Artifact::Picture => Some(Artifact::Done),
        Artifact::Done => None,
    }
}

/// The label of the diagnostic for a failed probe.
pub open spec fn scan_label(kind: JobKind) -> Seq<char> {
    match kind {
        JobKind::Text => "increment_to_next_free_text_input_nonce"@,
        JobKind::Image => "increment_to_next_free_image_input_nonce"@,
    }
}

/// A diagnostic: what was being done, in brackets, and the error.
pub open spec fn diagnostic_text(label: Seq<char>, error: Seq<char>) -> Seq<char> {
    "[ "@ + label + " ] "@ + error
}

/// A diagnostic: what was being done, in brackets, and the error.
pub fn diagnostic(label: &str, error: &str) -> (r: String)
    ensures
        r@ == diagnostic_text(label@, error@),
{
    let mut out = String::from_str("[ ");
    out.append(label);
    out.append(" ] ");
    out.append(error);
    out
}

fn following_stale(artifact: Artifact) -> (r: Option<Artifact>)
    ensures
        r == next_stale(artifact),
{
    match artifact {
        Artifact::Input => Some(Artifact::Text),
        Artifact::Text => Some(Artifact::Picture),
        Artifact::Picture => Some(Artifact::Done),
        Artifact::Done => None,
    }
}

impl BeginJob {
    /// The file of this job with the given role.
    pub open spec fn file(&self, artifact: Artifact) -> JobFile {
        JobFile { kind: self.kind, nonce: self.nonce, artifact }
    }

    /// The descriptor to write when the session asks for it.
    pub fn payload(&self) -> (r: &str)
        ensures
            r@ == self.payload@,
    {
        self.payload.as_str()
    }
}

impl OlianaServer {
    /// Where the nonces of `kind` stand.
    pub open spec fn state_of(&self, kind: JobKind) -> NonceState {
        match kind {
            JobKind::Text => NonceState {
                nonce: self.text_input_nonce,
                claimed: self.text_nonce_claimed,
            },
            JobKind::Image => NonceState {
                nonce: self.image_input_nonce,
                claimed: self.image_nonce_claimed,
            },
        }
    }

    /// `other` has the same work directories.
    pub open spec fn same_dirs(&self, other: &Self) -> bool {
        self.ai_workdir_images@ == other.ai_workdir_images@ && self.ai_workdir_text@
            == other.ai_workdir_text@
    }

    /// A session that has begun no job.
    pub fn new(ai_workdir_images: &str, ai_workdir_text: &str) -> (r: Self)
        ensures
            r.ai_workdir_images@ == ai_workdir_images@,
            r.ai_workdir_text@ == ai_workdir_text@,
            r.state_of(JobKind::Text) == (NonceState { nonce: 0, claimed: false }),
            r.state_of(JobKind::Image) == (NonceState { nonce: 0, claimed: false }),
            r.generate_text_next_byte_i == 0,
    {
        OlianaServer {
            ai_workdir_images: String::from_str(ai_workdir_images),
            ai_workdir_text: String::from_str(ai_workdir_text),
            text_input_nonce: 0,
            text_nonce_claimed: false,
            generate_text_next_byte_i: 0,
            image_input_nonce: 0,
            image_nonce_claimed: false,
        }
    }

    /// The nonce reached for text jobs.
    pub fn read_text_input_nonce(&self) -> (r: u64)
        ensures
            r == self.text_input_nonce,
    {
        self.text_input_nonce
    }

    /// The nonce reached for image jobs.
    pub fn read_image_input_nonce(&self) -> (r: u64)
        ensures
            r == self.image_input_nonce,
    {
        self.image_input_nonce
    }

    /// How many bytes of the current text reply the client has.
    pub fn read_generate_text_next_byte_i(&self) -> (r: usize)
        ensures
            r == self.generate_text_next_byte_i,
    {
        self.generate_text_next_byte_i
    }

    /// Where the nonces of `kind` stand.
    pub fn nonce_state(&self, kind: JobKind) -> (r: NonceState)
        ensures
            r == self.state_of(kind),
    {
        match kind {
            JobKind::Text => NonceState {
                nonce: self.text_input_nonce,
                claimed: self.text_nonce_claimed,
            },
            JobKind::Image => NonceState {
                nonce: self.image_input_nonce,
                claimed: self.image_nonce_claimed,
            },
        }
    }

    fn set_nonce_state(&mut self, kind: JobKind, state: NonceState)
        ensures
            final(self).state_of(kind) == state,
            forall|other: JobKind| other != kind ==> final(self).state_of(other) == old(self).state_of(other),
            final(self).generate_text_next_byte_i == old(self).generate_text_next_byte_i,
            final(self).ai_workdir_images == old(self).ai_workdir_images,
            final(self).ai_workdir_text == old(self).ai_workdir_text,
    {
        match kind {
            JobKind::Text => {
                self.text_input_nonce = state.nonce;
                self.text_nonce_claimed = state.claimed;
            },
            JobKind::Image => {
                self.image_input_nonce = state.nonce;
                self.image_nonce_claimed = state.claimed;
            },
        }
    }

    /// The work directory of a kind of job.
    pub fn workdir(&self, kind: JobKind) -> (r: &str)
        ensures
            r@ == match kind {
                JobKind::Text => self.ai_workdir_text@,
                JobKind::Image => self.ai_workdir_images@,
            },
    {
        match kind {
            JobKind::Text => self.ai_workdir_text.as_str(),
            JobKind::Image => self.ai_workdir_images.as_str(),
        }
    }

    /// The name of the descriptor of the current text job.
    pub fn get_current_text_input_json_path(&self) -> (r: String)
        ensures
            r@ == file_name(self.text_input_nonce, Artifact::Input),
    {
        job_file_name(
            JobFile { kind: JobKind::Text, nonce: self.text_input_nonce, artifact: Artifact::Input },
        )
    }

    /// The name of the reply of the current text job.
    pub fn get_current_text_output_txt_path(&self) -> (r: String)
        ensures
            r@ == file_name(self.text_input_nonce, Artifact::Text),
    {
        job_file_name(
            JobFile { kind: JobKind::Text, nonce: self.text_input_nonce, artifact: Artifact::Text },
        )
    }

    /// The name of the completion marker of the current text job.
    pub fn get_current_text_output_done_path(&self) -> (r: String)
        ensures
            r@ == file_name(self.text_input_nonce, Artifact::Done),
    {
        job_file_name(
            JobFile { kind: JobKind::Text, nonce: self.text_input_nonce, artifact: Artifact::Done },
        )
    }

    /// The name of the descriptor of the current image job.
    pub fn get_current_image_input_json_path(&self) -> (r: String)
        ensures
            r@ == file_name(self.image_input_nonce, Artifact::Input),
    {
        job_file_name(
            JobFile {
                kind: JobKind::Image,
                nonce: self.image_input_nonce,
                artifact: Artifact::Input,
            },
        )
    }

    /// The name of the picture of the current image job.
    pub fn get_current_image_output_png_path(&self) -> (r: String)
        ensures
            r@ == file_name(self.image_input_nonce, Artifact::Picture),
    {
        job_file_name(
            JobFile {
                kind: JobKind::Image,
                nonce: self.image_input_nonce,
                artifact: Artifact::Picture,
            },
        )
    }

    /// The name of the error message of the current image job.
    pub fn get_current_image_output_txt_path(&self) -> (r: String)
        ensures
            r@ == file_name(self.image_input_nonce, Artifact::Text),
    {
        job_file_name(
            JobFile {
                kind: JobKind::Image,
                nonce: self.image_input_nonce,
                artifact: Artifact::Text,
            },
        )
    }

    /// Takes the answer to a probe of the current nonce of `kind`: whether
    /// its descriptor exists. A nonce that exists, or that this session has
    /// claimed, is left behind for the next.
    pub fn increment_to_next_free_nonce(&mut self, kind: JobKind, present: bool) -> (r: NonceScan)
        ensures
            r == scan_result(old(self).state_of(kind), present),
            final(self).state_of(kind) == scanned(old(self).state_of(kind), present),
            forall|other: JobKind|
                other != kind ==> final(self).state_of(other) == old(self).state_of(other),
            final(self).generate_text_next_byte_i == old(self).generate_text_next_byte_i,
            final(self).same_dirs(old(self)),
    {
        let state = self.nonce_state(kind);
        if present || state.claimed {
            if state.nonce < u64::MAX {
                self.set_nonce_state(kind, NonceState { nonce: state.nonce + 1, claimed: false });
                NonceScan::Taken
            } else {
                NonceScan::Exhausted
            }
        } else {
            NonceScan::Free(state.nonce)
        }
    }

    /// Takes the answer to a probe of the current text nonce.
    pub fn increment_to_next_free_text_input_nonce(&mut self, present: bool) -> (r: NonceScan)
        ensures
            r == scan_result(old(self).state_of(JobKind::Text), present),
            final(self).state_of(JobKind::Text) == scanned(
                old(self).state_of(JobKind::Text),
                present,
            ),
            final(self).state_of(JobKind::Image) == old(self).state_of(JobKind::Image),
            final(self).generate_text_next_byte_i == old(self).generate_text_next_byte_i,
            final(self).same_dirs(old(self)),
    {
        self.increment_to_next_free_nonce(JobKind::Text, present)
    }

    /// Takes the answer to a probe of the current image nonce.
    pub fn increment_to_next_free_image_input_nonce(&mut self, present: bool) -> (r: NonceScan)
        ensures
            r == scan_result(old(self).state_of(JobKind::Image), present),
            final(self).state_of(JobKind::Image) == scanned(
                old(self).state_of(JobKind::Image),
                present,
            ),
            final(self).state_of(JobKind::Text) == old(self).state_of(JobKind::Text),
            final(self).generate_text_next_byte_i == old(self).generate_text_next_byte_i,
            final(self).same_dirs(old(self)),
    {
        self.increment_to_next_free_nonce(JobKind::Image, present)
    }
}

/// What a reply does to a job that is being begun.
pub struct BeginMove {
    /// Where the nonces of the job's kind stand afterwards.
    pub state: NonceState,
    /// The job's nonce afterwards.
    pub nonce: u64,
    /// The job's phase afterwards.
    pub phase: BeginPhase,
    /// The operation asked for next, if any.
    pub ask: Option<IoRequest>,
    /// The reply to the client, if no operation is asked for.
    pub reply: Seq<char>,
}

/// The job goes on: in phase `phase` it asks for `request`.
pub open spec fn goes_on(
    state: NonceState,
    nonce: u64,
    phase: BeginPhase,
    request: IoRequest,
) -> BeginMove {
    BeginMove { state, nonce, phase, ask: Some(request), reply: Seq::empty() }
}

/// The job is over: the client gets `reply`.
pub open spec fn is_over(state: NonceState, nonce: u64, reply: Seq<char>) -> BeginMove {
    BeginMove { state, nonce, phase: BeginPhase::Finished, ask: None, reply }
}

/// Whether the session still stands where the job left it: at the job's
/// nonce, which nobody has claimed while its old outputs are cleared away.
pub open spec fn job_current(state: NonceState, nonce: u64, phase: BeginPhase) -> bool {
    match phase {
        BeginPhase::Probing => state.nonce == nonce,
        BeginPhase::CheckingStale(_) => state.nonce == nonce && !state.claimed,
        BeginPhase::RemovingStale(_) => state.nonce == nonce && !state.claimed,
        _ => true,
    }
}

/// What follows once the stale output `artifact` is out of the way: the
/// next one is checked; behind the last the nonce is claimed and the
/// descriptor written.
pub open spec fn stale_cleared(
    state: NonceState,
    kind: JobKind,
    nonce: u64,
    artifact: Artifact,
) -> BeginMove {
    match next_stale(artifact) {
        Some(next) => goes_on(
            state,
            nonce,
            BeginPhase::CheckingStale(next),
            IoRequest::Exists(JobFile { kind, nonce, artifact: next }),
        ),
        None => goes_on(
            NonceState { nonce, claimed: true },
            nonce,
            BeginPhase::Writing,
            IoRequest::Write(JobFile { kind, nonce, artifact: Artifact::Input }),
        ),
    }
}

/// What a reply does to a job of `kind` that stands at `nonce` in `phase`,
/// in a session whose nonces of that kind stand at `state`.
///
/// The nonce is probed upwards until a descriptor does not exist. Then the
/// outputs left over under that nonce are removed, the nonce is claimed and
/// the descriptor written. If another session has written a descriptor
/// under that nonce in the meantime, the nonce is left behind and the next
/// is probed. A failed probe, removal or write ends the job with a
/// diagnostic; so does a reply that answers nothing asked, and a job that
/// another has overtaken.
pub open spec fn begin_move(
    state: NonceState,
    kind: JobKind,
    nonce: u64,
    phase: BeginPhase,
    reply: IoReply,
) -> BeginMove {
    if !job_current(state, nonce, phase) {
        is_over(state, nonce, diagnostic_text("session"@, "the job was superseded"@))
    } else {
        match phase {
            BeginPhase::Probing => match reply {
                IoReply::Flag(present) => match scan_result(state, present) {
                    NonceScan::Taken => goes_on(
                        scanned(state, present),
                        scanned(state, present).nonce,
                        BeginPhase::Probing,
                        IoRequest::Exists(
                            JobFile {
                                kind,
                                nonce: scanned(state, present).nonce,
                                artifact: Artifact::Input,
                            },
                        ),
                    ),
                    NonceScan::Exhausted => is_over(
                        state,
                        nonce,
                        diagnostic_text(scan_label(kind), "no nonce is left"@),
                    ),
                    NonceScan::Free(_) => stale_cleared(state, kind, nonce, Artifact::Input),
                },
                IoReply::Failed(error) => is_over(
                    state,
                    nonce,
                    diagnostic_text(scan_label(kind), error@),
                ),
                _ => is_over(
                    state,
                    nonce,
                    diagnostic_text(scan_label(kind), "unexpected reply"@),
                ),
            },
            BeginPhase::CheckingStale(artifact) => match reply {
                IoReply::Flag(true) => goes_on(
                    state,
                    nonce,
                    BeginPhase::RemovingStale(artifact),
                    IoRequest::Remove(JobFile { kind, nonce, artifact }),
                ),
                _ => stale_cleared(state, kind, nonce, artifact),
            },
            BeginPhase::RemovingStale(artifact) => match reply {
                IoReply::Failed(error) => is_over(
                    state,
                    nonce,
                    diagnostic_text("tokio::fs::remove_file"@, error@),
                ),
                _ => stale_cleared(state, kind, nonce, artifact),
            },
            BeginPhase::Writing => match reply {
                IoReply::Done => is_over(state, nonce, Seq::empty()),
                IoReply::Taken => if state != (NonceState { nonce, claimed: true }) {
                    is_over(state, nonce, diagnostic_text("session"@, "the job was superseded"@))
                } else if nonce < u64::MAX {
                    goes_on(
                        scanned(state, true),
                        (nonce + 1) as u64,
                        BeginPhase::Probing,
                        IoRequest::Exists(
                            JobFile { kind, nonce: (nonce + 1) as u64, artifact: Artifact::Input },
                        ),
                    )
                } else {
                    is_over(state, nonce, diagnostic_text(scan_label(kind), "no nonce is left"@))
                },
                IoReply::Failed(error) => is_over(
                    state,
                    nonce,
                    diagnostic_text("tokio::fs::write"@, error@),
                ),
                _ => is_over(state, nonce, diagnostic_text("tokio::fs::write"@, "unexpected reply"@)),
            },
            BeginPhase::Finished => is_over(
                state,
                nonce,
                diagnostic_text("session"@, "the job is over"@),
            ),
        }
    }
}

/// The step states what the move says: the operation it asks for, or its
/// reply.
pub open spec fn step_is(step: BeginStep, m: BeginMove) -> bool {
    match step {
        BeginStep::Ask(request) => m.ask == Some(request),
        BeginStep::Reply(text) => m.ask is None && text@ == m.reply,
    }
}

impl OlianaServer {
    /// Begins a job of `kind` with the descriptor `payload`: the nonce
    /// reached is probed first. A text job starts its stream at byte 0.
    pub fn begin(&mut self, kind: JobKind, payload: String) -> (r: (BeginJob, BeginStep))
        ensures
            final(self).state_of(JobKind::Text) == old(self).state_of(JobKind::Text),
            final(self).state_of(JobKind::Image) == old(self).state_of(JobKind::Image),
            final(self).same_dirs(old(self)),
            final(self).generate_text_next_byte_i == if kind == JobKind::Text {
                0
            } else {
                old(self).generate_text_next_byte_i
            },
            r.0.kind == kind,
            r.0.nonce == old(self).state_of(kind).nonce,
            r.0.phase == BeginPhase::Probing,
            r.0.payload@ == payload@,
            r.1 matches BeginStep::Ask(request) && request == IoRequest::Exists(
                r.0.file(Artifact::Input),
            ),
    {
        match kind {
            JobKind::Text => {
                self.generate_text_next_byte_i = 0;
            },
            JobKind::Image => {},
        }
        let nonce: u64 = self.nonce_state(kind).nonce;
        let job = BeginJob { kind, nonce, phase: BeginPhase::Probing, payload };
        let request = IoRequest::Exists(JobFile { kind, nonce, artifact: Artifact::Input });
        (job, BeginStep::Ask(request))
    }

    /// Begins a text job with these prompts for a client that is active at
    /// `now_s`, `None` where the clock could not be read: the clock of
    /// client activity is stamped if the time is known, the stop latch
    /// cleared, the stream set back to byte 0, and the nonce reached is
    /// probed first.
    pub fn generate_text_begin(
        &mut self,
        idle: &mut IdleController,
        procs: &mut TrackedProcs,
        now_s: Option<u64>,
        system_prompt: &str,
        user_prompt: &str,
    ) -> (r: Begun)
        ensures
            final(idle).noted(old(idle), final(procs), old(procs), now_s, r.send_continue),
            final(self).state_of(JobKind::Text) == old(self).state_of(JobKind::Text),
            final(self).state_of(JobKind::Image) == old(self).state_of(JobKind::Image),
            final(self).same_dirs(old(self)),
            final(self).generate_text_next_byte_i == 0,
            r.job.kind == JobKind::Text,
            r.job.nonce == old(self).text_input_nonce,
            r.job.phase == BeginPhase::Probing,
            r.job.payload@ == text_descriptor(
                json_string(system_prompt@),
                json_string(user_prompt@),
            ),
            r.step matches BeginStep::Ask(request) && request == IoRequest::Exists(
                r.job.file(Artifact::Input),
            ),
    {
        let send_continue: bool = idle.client_activity(procs, now_s);
        let payload = text_input_json(system_prompt, user_prompt);
        let (job, step) = self.begin(JobKind::Text, payload);
        Begun { job, step, send_continue }
    }

    /// Begins an image job for a client that is active at `now_s`, `None`
    /// where the clock could not be read: the clock of client activity is
    /// stamped if the time is known, the stop latch cleared, and the nonce
    /// reached is probed first. `guidance_scale` is the scale written
    /// as a JSON number.
    pub fn generate_image_begin(
        &mut self,
        idle: &mut IdleController,
        procs: &mut TrackedProcs,
        now_s: Option<u64>,
        prompt: &str,
        negative_prompt: &str,
        guidance_scale: &str,
        num_inference_steps: u32,
    ) -> (r: Begun)
        ensures
            final(idle).noted(old(idle), final(procs), old(procs), now_s, r.send_continue),
            final(self).state_of(JobKind::Text) == old(self).state_of(JobKind::Text),
            final(self).state_of(JobKind::Image) == old(self).state_of(JobKind::Image),
            final(self).same_dirs(old(self)),
            final(self).generate_text_next_byte_i == old(self).generate_text_next_byte_i,
            r.job.kind == JobKind::Image,
            r.job.nonce == old(self).image_input_nonce,
            r.job.phase == BeginPhase::Probing,
            r.job.payload@ == image_descriptor(
                json_string(prompt@),
                json_string(negative_prompt@),
                guidance_scale@,
                num_inference_steps as nat,
            ),
            r.step matches BeginStep::Ask(request) && request == IoRequest::Exists(
                r.job.file(Artifact::Input),
            ),
    {
        let send_continue: bool = idle.client_activity(procs, now_s);
        let payload = image_input_json(prompt, negative_prompt, guidance_scale, num_inference_steps);
        let (job, step) = self.begin(JobKind::Image, payload);
        Begun { job, step, send_continue }
    }

    fn after_stale(&mut self, job: &mut BeginJob, artifact: Artifact) -> (step: BeginStep)
        requires
            old(self).state_of(old(job).kind).nonce == old(job).nonce,
        ensures
            ({
                let m = stale_cleared(
                    old(self).state_of(old(job).kind),
                    old(job).kind,
                    old(job).nonce,
                    artifact,
                );
                &&& final(self).state_of(old(job).kind) == m.state
                &&& final(job).nonce == m.nonce
                &&& final(job).phase == m.phase
                &&& step_is(step, m)
            }),
            forall|other: JobKind|
                other != old(job).kind ==> final(self).state_of(other) == old(self).state_of(other),
            final(self).generate_text_next_byte_i == old(self).generate_text_next_byte_i,
            final(self).same_dirs(old(self)),
            final(job).kind == old(job).kind,
            final(job).payload@ == old(job).payload@,
    {
        match following_stale(artifact) {
            Some(next) => {
                job.phase = BeginPhase::CheckingStale(next);
                BeginStep::Ask(
                    IoRequest::Exists(JobFile { kind: job.kind, nonce: job.nonce, artifact: next }),
                )
            },
            None => {
                self.set_nonce_state(job.kind, NonceState { nonce: job.nonce, claimed: true });
                job.phase = BeginPhase::Writing;
                BeginStep::Ask(
                    IoRequest::Write(
                        JobFile { kind: job.kind, nonce: job.nonce, artifact: Artifact::Input },
                    ),
                )
            },
        }
    }

    /// Takes the answer to the operation that the job asked for last and
    /// names the next step.
    pub fn begin_reply(&mut self, job: &mut BeginJob, reply: IoReply) -> (step: BeginStep)
        ensures
            ({
                let m = begin_move(
                    old(self).state_of(old(job).kind),
                    old(job).kind,
                    old(job).nonce,
                    old(job).phase,
                    reply,
                );
                &&& final(self).state_of(old(job).kind) == m.state
                &&& final(job).nonce == m.nonce
                &&& final(job).phase == m.phase
                &&& step_is(step, m)
            }),
            forall|other: JobKind|
                other != old(job).kind ==> final(self).state_of(other) == old(self).state_of(other),
            final(self).generate_text_next_byte_i == old(self).generate_text_next_byte_i,
            final(self).same_dirs(old(self)),
            final(job).kind == old(job).kind,
            final(job).payload@ == old(job).payload@,
    {
        let state = self.nonce_state(job.kind);
        let current: bool = match job.phase {
            BeginPhase::Probing => state.nonce == job.nonce,
            BeginPhase::CheckingStale(_) => state.nonce == job.nonce && !state.claimed,
            BeginPhase::RemovingStale(_) => state.nonce == job.nonce && !state.claimed,
            _ => true,
        };
        if !current {
            job.phase = BeginPhase::Finished;
            return BeginStep::Reply(diagnostic("session", "the job was superseded"));
        }
        let label: &'static str = match job.kind {
            JobKind::Text => "increment_to_next_free_text_input_nonce",
            JobKind::Image => "increment_to_next_free_image_input_nonce",
        };
        match job.phase {
            BeginPhase::Probing => match reply {
                IoReply::Flag(present) => match self.increment_to_next_free_nonce(
                    job.kind,
                    present,
                ) {
                    NonceScan::Taken => {
                        let nonce: u64 = self.nonce_state(job.kind).nonce;
                        job.nonce = nonce;
                        BeginStep::Ask(
                            IoRequest::Exists(
                                JobFile { kind: job.kind, nonce, artifact: Artifact::Input },
                            ),
                        )
                    },
                    NonceScan::Exhausted => {
                        job.phase = BeginPhase::Finished;
                        BeginStep::Reply(diagnostic(label, "no nonce is left"))
                    },
                    NonceScan::Free(_) => self.after_stale(job, Artifact::Input),
                },
                IoReply::Failed(error) => {
                    job.phase = BeginPhase::Finished;
                    BeginStep::Reply(diagnostic(label, error.as_str()))
                },
                _ => {
                    job.phase = BeginPhase::Finished;
                    BeginStep::Reply(diagnostic(label, "unexpected reply"))
                },
            },
            BeginPhase::CheckingStale(artifact) => match reply {
                IoReply::Flag(true) => {
                    job.phase = BeginPhase::RemovingStale(artifact);
                    BeginStep::Ask(
                        IoRequest::Remove(JobFile { kind: job.kind, nonce: job.nonce, artifact }),
                    )
                },
                _ => self.after_stale(job, artifact),
            },
            BeginPhase::RemovingStale(artifact) => match reply {
                IoReply::Failed(error) => {
                    job.phase = BeginPhase::Finished;
                    BeginStep::Reply(diagnostic("tokio::fs::remove_file", error.as_str()))
                },
                _ => self.after_stale(job, artifact),
            },
            BeginPhase::Writing => match reply {
                IoReply::Done => {
                    job.phase = BeginPhase::Finished;
                    BeginStep::Reply(String::new())
                },
                IoReply::Taken => {
                    if !(state.nonce == job.nonce && state.claimed) {
                        job.phase = BeginPhase::Finished;
                        BeginStep::Reply(diagnostic("session", "the job was superseded"))
                    } else {
                        match self.increment_to_next_free_nonce(job.kind, true) {
                            NonceScan::Taken => {
                                let nonce: u64 = self.nonce_state(job.kind).nonce;
                                job.nonce = nonce;
                                job.phase = BeginPhase::Probing;
                                BeginStep::Ask(
                                    IoRequest::Exists(
                                        JobFile { kind: job.kind, nonce, artifact: Artifact::Input },
                                    ),
                                )
                            },
                            _ => {
                                job.phase = BeginPhase::Finished;
                                BeginStep::Reply(diagnostic(label, "no nonce is left"))
                            },
                        }
                    }
                },
                IoReply::Failed(error) => {
                    job.phase = BeginPhase::Finished;
                    BeginStep::Reply(diagnostic("tokio::fs::write", error.as_str()))
                },
                _ => {
                    job.phase = BeginPhase::Finished;
                    BeginStep::Reply(diagnostic("tokio::fs::write", "unexpected reply"))
                },
            },
            BeginPhase::Finished => BeginStep::Reply(diagnostic("session", "the job is over")),
        }
    }
}

/// A probe never takes the nonces back.
pub proof fn lemma_scan_advances(state: NonceState, present: bool)
    ensures
        nonce_advances(state, scanned(state, present)),
{
}

/// No step in beginning a job takes the nonces back. A descriptor is
/// asked to be written only in the step that claims its nonce, which
/// nobody had claimed before, and a file is asked to be removed only under
/// a nonce that nobody has claimed.
pub proof fn lemma_begin_move(
    state: NonceState,
    kind: JobKind,
    nonce: u64,
    phase: BeginPhase,
    reply: IoReply,
)
    ensures
        nonce_advances(state, begin_move(state, kind, nonce, phase, reply).state),
        begin_move(state, kind, nonce, phase, reply).ask matches Some(IoRequest::Write(file))
            ==> {
            &&& !state.claimed
            &&& file == (JobFile { kind, nonce: state.nonce, artifact: Artifact::Input })
            &&& begin_move(state, kind, nonce, phase, reply).state == (NonceState {
                nonce: state.nonce,
                claimed: true,
            })
        },
        begin_move(state, kind, nonce, phase, reply).ask matches Some(IoRequest::Remove(file))
            ==> !state.claimed && file.kind == kind && file.nonce == state.nonce,
{
}

/// One answer in a run of a session: the nonce and phase of the job that it
/// belongs to, and the answer.
pub struct BeginEvent {
    pub nonce: u64,
    pub phase: BeginPhase,
    pub reply: IoReply,
}

/// Where the nonces of `kind` stand after the first `k` answers of a run
/// that started at `start`. The answers may belong to any jobs, in any
/// order.
pub open spec fn run_state(
    start: NonceState,
    kind: JobKind,
    events: Seq<BeginEvent>,
    k: int,
) -> NonceState
    decreases k,
{
    if k <= 0 {
        start
    } else {
        begin_move(
            run_state(start, kind, events, k - 1),
            kind,
            events[k - 1].nonce,
            events[k - 1].phase,
            events[k - 1].reply,
        ).state
    }
}

/// The nonce whose descriptor the session asks to write upon answer `k` of
/// a run, if it asks for that.
pub open spec fn written_at(
    start: NonceState,
    kind: JobKind,
    events: Seq<BeginEvent>,
    k: int,
) -> Option<u64> {
    match begin_move(
        run_state(start, kind, events, k),
        kind,
        events[k].nonce,
        events[k].phase,
        events[k].reply,
    ).ask {
        Some(IoRequest::Write(file)) => Some(file.nonce),
        _ => None,
    }
}

/// Between two moments of a run the nonces never go back.
pub proof fn lemma_run_advances(
    start: NonceState,
    kind: JobKind,
    events: Seq<BeginEvent>,
    a: int,
    b: int,
)
    requires
        0 <= a <= b,
    ensures
        nonce_advances(run_state(start, kind, events, a), run_state(start, kind, events, b)),
    decreases b - a,
{
    if a < b {
        lemma_run_advances(start, kind, events, a, b - 1);
        lemma_begin_move(
            run_state(start, kind, events, b - 1),
            kind,
            events[b - 1].nonce,
            events[b - 1].phase,
            events[b - 1].reply,
        );
    }
}

/// Within one session the nonces of the jobs of one kind strictly increase:
/// whatever jobs are begun and however their answers come in, of two
/// descriptors that the session asks to write the later has the greater
/// nonce. So no nonce is used twice, and no descriptor is written twice.
pub proof fn lemma_nonces_strictly_increase(
    start: NonceState,
    kind: JobKind,
    events: Seq<BeginEvent>,
    i: int,
    j: int,
)
    requires
        0 <= i < j < events.len(),
        written_at(start, kind, events, i) is Some,
        written_at(start, kind, events, j) is Some,
    ensures
        written_at(start, kind, events, i)->0 < written_at(start, kind, events, j)->0,
{
    lemma_begin_move(
        run_state(start, kind, events, i),
        kind,
        events[i].nonce,
        events[i].phase,
        events[i].reply,
    );
    lemma_begin_move(
        run_state(start, kind, events, j),
        kind,
        events[j].nonce,
        events[j].phase,
        events[j].reply,
    );
    lemma_run_advances(start, kind, events, i + 1, j);
}

/// How many outputs are still to be cleared away once `artifact` is.
pub open spec fn stale_left(artifact: Artifact) -> nat {
    match artifact {
        Artifact::Input => 3,
        Artifact::Text => 2,
        Artifact::Picture => 1,
        Artifact::Done => 0,
    }
}

/// How many steps the beginning of a job can still take at most, in a
/// session whose nonces stand at `state`.
pub open spec fn begin_budget(state: NonceState, phase: BeginPhase) -> nat {
    let behind = (11 * (u64::MAX - state.nonce)) as nat;
    match phase {
        BeginPhase::Finished => 0,
        BeginPhase::Writing => behind + 1,
        BeginPhase::RemovingStale(artifact) => behind + 2 * stale_left(artifact) + 2,
        BeginPhase::CheckingStale(artifact) => behind + 2 * stale_left(artifact) + 3,
        BeginPhase::Probing => behind + 10,
    }
}

/// Every beginning of a job ends: each step that asks for an operation
/// brings it closer to its end, whatever the answers are, and a step that
/// asks for none ends it.
pub proof fn lemma_begin_ends(
    state: NonceState,
    kind: JobKind,
    nonce: u64,
    phase: BeginPhase,
    reply: IoReply,
)
    ensures
        ({
            let m = begin_move(state, kind, nonce, phase, reply);
            &&& m.ask is Some ==> begin_budget(m.state, m.phase) < begin_budget(state, phase)
            &&& m.ask is None ==> m.phase == BeginPhase::Finished
        }),
{
}

/// A descriptor is written only when the outputs left over under its
/// nonce are out of the way: the step that asks for the write is the one
/// that finds the last of them, the completion marker, missing or removed;
/// and each of them is looked at only when the one before it is out of the
/// way, the first when the descriptor itself was found missing.
pub proof fn lemma_write_follows_clearing(
    state: NonceState,
    kind: JobKind,
    nonce: u64,
    phase: BeginPhase,
    reply: IoReply,
)
    ensures
        ({
            let m = begin_move(state, kind, nonce, phase, reply);
            &&& m.ask matches Some(IoRequest::Write(_)) ==> {
                ||| phase == BeginPhase::CheckingStale(Artifact::Done) && reply != IoReply::Flag(
                    true,
                )
                ||| phase == BeginPhase::RemovingStale(Artifact::Done) && !(reply is Failed)
            }
            &&& m.phase matches BeginPhase::CheckingStale(next) ==> {
                ||| phase == BeginPhase::Probing && reply == IoReply::Flag(false)
                    && !state.claimed && next == Artifact::Text
                ||| phase matches BeginPhase::CheckingStale(before) && reply != IoReply::Flag(
                    true,
                ) && next_stale(before) == Some(next)
                ||| phase matches BeginPhase::RemovingStale(before) && !(reply is Failed)
                    && next_stale(before) == Some(next)
            }
            &&& m.phase matches BeginPhase::RemovingStale(artifact) ==> phase
                == BeginPhase::CheckingStale(artifact) && reply == IoReply::Flag(true)
        }),
{
}

/// The phase is one that a job begun by `begin` can be in: the descriptor
/// itself is never among the outputs that are cleared away.
pub open spec fn clean_phase(phase: BeginPhase) -> bool {
    phase != BeginPhase::CheckingStale(Artifact::Input) && phase != BeginPhase::RemovingStale(
        Artifact::Input,
    )
}

/// A session never removes a descriptor: a job stays in the phases that
/// `begin` leads to, and there only outputs are asked to be removed.
pub proof fn lemma_descriptors_stay(
    state: NonceState,
    kind: JobKind,
    nonce: u64,
    phase: BeginPhase,
    reply: IoReply,
)
    requires
        clean_phase(phase),
    ensures
        clean_phase(begin_move(state, kind, nonce, phase, reply).phase),
        begin_move(state, kind, nonce, phase, reply).ask matches Some(IoRequest::Remove(file))
            ==> file.artifact != Artifact::Input,
{
}

/// A descriptor that exists already is never written over: told that the
/// nonce it claimed was taken, a job leaves the nonce behind, claims
/// nothing and probes the next one.
pub proof fn lemma_taken_is_left_behind(state: NonceState, kind: JobKind, nonce: u64)
    requires
        state == (NonceState { nonce, claimed: true }),
        nonce < u64::MAX,
    ensures
        ({
            let m = begin_move(state, kind, nonce, BeginPhase::Writing, IoReply::Taken);
            &&& m.state == (NonceState { nonce: (nonce + 1) as u64, claimed: false })
            &&& m.phase == BeginPhase::Probing
            &&& m.ask == Some(
                IoRequest::Exists(
                    JobFile { kind, nonce: (nonce + 1) as u64, artifact: Artifact::Input },
                ),
            )
        }),
{
}

/// The descriptors of one kind in a work directory that any number of
/// sessions share: `shelves[k]` holds the nonces whose descriptor exists
/// before step `k`, and `created[k]` is the nonce whose descriptor step `k`
/// wrote, if it wrote one. The run is honest if no descriptor ever goes
/// away and a descriptor is written only where none existed, which is what
/// a `Write` answered with `Done` means.
pub open spec fn shelf_run(shelves: Seq<Set<u64>>, created: Seq<Option<u64>>) -> bool {
    &&& shelves.len() == created.len() + 1
    &&& forall|k: int|
        0 <= k < created.len() ==> (#[trigger] shelves[k]).subset_of(shelves[k + 1])
    &&& forall|k: int|
        0 <= k < created.len() && created[k] is Some ==> !(#[trigger] shelves[k]).contains(
            created[k]->0,
        ) && shelves[k + 1].contains(created[k]->0)
}

/// However many sessions share a work directory and however their steps
/// fall in time, no nonce gets two descriptors: of two descriptors written
/// in an honest run the nonces differ.
pub proof fn lemma_one_descriptor_per_nonce(
    shelves: Seq<Set<u64>>,
    created: Seq<Option<u64>>,
    i: int,
    j: int,
)
    requires
        shelf_run(shelves, created),
        0 <= i < j < created.len(),
        created[i] is Some,
        created[j] is Some,
    ensures
        created[i]->0 != created[j]->0,
{
    assert(!shelves[i].contains(created[i]->0));
    assert(!shelves[j].contains(created[j]->0));
    lemma_shelf_keeps(shelves, created, i + 1, j, created[i]->0);
}

proof fn lemma_shelf_keeps(
    shelves: Seq<Set<u64>>,
    created: Seq<Option<u64>>,
    a: int,
    b: int,
    nonce: u64,
)
    requires
        shelf_run(shelves, created),
        0 <= a <= b <= created.len(),
        shelves[a].contains(nonce),
    ensures
        shelves[b].contains(nonce),
    decreases b - a,
{
    if a < b {
        lemma_shelf_keeps(shelves, created, a, b - 1, nonce);
        assert(shelves[b - 1].subset_of(shelves[b - 1 + 1]));
    }
}

} // verus!
