//! Streaming the reply of a text job: what each look at the growing output
//! file hands to the client, and the dialogue that waits for the next
//! chunk.

use crate::session::{Artifact, IoReply, IoRequest, JobFile, JobKind, OlianaServer};
use vstd::prelude::*;
use vstd::slice::slice_subrange;
use vstd::utf8::{decode_utf8, decode_utf8_encode_utf8, encode_utf8, valid_utf8};

verus! {

/// How often the output file is looked for before a call gives up, and how
/// often it is read again for more.
pub const TOKEN_POLLS: u32 = 30;

/// Milliseconds between two looks at a file.
pub const POLL_MS: u64 = 100;

/// Reads bytes as text.
///
/// Calls `std::str::from_utf8`, which gives the text exactly if the bytes
/// are well-formed UTF-8, and copies the text. The contract takes
/// `valid_utf8` and `decode_utf8` as the definition of well-formed UTF-8
/// and of the text that it encodes.
#[verifier::external_body]
pub(crate) fn utf8_text(bytes: &[u8]) -> (r: Option<String>)
    ensures
        match r {
            Some(text) => valid_utf8(bytes@) && text@ == decode_utf8(bytes@),
            None => !valid_utf8(bytes@),
        },
{
    match std::str::from_utf8(bytes) {
        Ok(text) => Some(text.to_string()),
        Err(_) => None,
    }
}

/// What a look at the output file yields.
pub enum TextRead {
    /// The file is shorter than what the client already has: the stream is
    /// over.
    Truncated,
    /// Nothing to hand out: no new bytes, or bytes that are not yet whole
    /// characters.
    Pending,
    /// New text.
    Chunk(String),
}

/// What a look at an output file holding `contents` does, for a client
/// that has its first `cursor` bytes.
pub struct ReadMove {
    /// How many bytes the client has afterwards.
    pub cursor: nat,
    /// The bytes handed out, if any.
    pub chunk: Option<Seq<u8>>,
    /// Whether the file is shorter than what the client has.
    pub truncated: bool,
}

/// A look at the file hands out everything behind the cursor, provided it
/// is at least one byte and well-formed text; the cursor then stands at the
/// end of the file. Bytes that are not well-formed are left for a later
/// look.
pub open spec fn read_move(cursor: nat, contents: Seq<u8>) -> ReadMove {
    if contents.len() < cursor {
        ReadMove { cursor, chunk: None, truncated: true }
    } else {
        let fresh = contents.subrange(cursor as int, contents.len() as int);
        if !valid_utf8(fresh) {
            ReadMove { cursor, chunk: None, truncated: false }
        } else if fresh.len() == 0 {
            ReadMove { cursor: contents.len(), chunk: None, truncated: false }
        } else {
            ReadMove { cursor: contents.len(), chunk: Some(fresh), truncated: false }
        }
    }
}

/// The bytes that a run of looks hands out, from the first look on, and the
/// cursor behind them. `reads` holds what each look found in the file. A
/// look that finds the file truncated ends the stream.
pub open spec fn streamed(cursor: nat, reads: Seq<Seq<u8>>) -> (Seq<u8>, nat)
    decreases reads.len(),
{
    if reads.len() == 0 {
        (Seq::empty(), cursor)
    } else {
        let m = read_move(cursor, reads[0]);
        if m.truncated {
            (Seq::empty(), cursor)
        } else {
            let rest = streamed(m.cursor, reads.drop_first());
            (
                match m.chunk {
                    Some(bytes) => bytes + rest.0,
                    None => rest.0,
                },
                rest.1,
            )
        }
    }
}

/// `part` is what a file that ends up holding `file` held at some earlier
/// time, the file being only ever appended to.
pub open spec fn is_prefix(part: Seq<u8>, file: Seq<u8>) -> bool {
    part.len() <= file.len() && part == file.subrange(0, part.len() as int)
}

/// The chunks of a stream, put together, are the bytes of the output file
/// from where the stream began to where it stands, in the file's order,
/// whatever the moments at which the file was looked at.
pub proof fn lemma_stream_preserves_bytes(cursor: nat, reads: Seq<Seq<u8>>, file: Seq<u8>)
    requires
        cursor <= file.len(),
        forall|i: int| 0 <= i < reads.len() ==> is_prefix(#[trigger] reads[i], file),
    ensures
        cursor <= streamed(cursor, reads).1 <= file.len(),
        streamed(cursor, reads).0 == file.subrange(cursor as int, streamed(cursor, reads).1 as int),
    decreases reads.len(),
{
    if reads.len() > 0 {
        let m = read_move(cursor, reads[0]);
        if !m.truncated {
            lemma_stream_preserves_bytes(m.cursor, reads.drop_first(), file);
        }
    }
}

/// A stream that starts at byte 0 of a job whose finished output is
/// well-formed text hands out that output byte for byte, once a look has
/// found the finished file: the looks before it may have found any earlier
/// states of the file, as long as the file never shrank between two looks.
/// The look that a call makes once it has seen the completion marker is
/// such a look, the marker being set behind the last byte.
pub proof fn lemma_stream_complete(reads: Seq<Seq<u8>>, file: Seq<u8>)
    requires
        valid_utf8(file),
        reads.len() > 0,
        reads.last() == file,
        forall|i: int| 0 <= i < reads.len() ==> is_prefix(#[trigger] reads[i], file),
        forall|i: int, j: int|
            0 <= i <= j < reads.len() ==> (#[trigger] reads[i]).len() <= (#[trigger] reads[j]).len(),
    ensures
        streamed(0, reads) == (file, file.len() as nat),
{
    lemma_stream_reaches_end(0, reads, file);
    lemma_stream_preserves_bytes(0, reads, file);
}

proof fn lemma_stream_reaches_end(cursor: nat, reads: Seq<Seq<u8>>, file: Seq<u8>)
    requires
        valid_utf8(file),
        reads.len() > 0,
        reads.last() == file,
        cursor <= reads[0].len() <= file.len(),
        valid_utf8(file.subrange(0, cursor as int)),
        forall|i: int| 0 <= i < reads.len() ==> is_prefix(#[trigger] reads[i], file),
        forall|i: int, j: int|
            0 <= i <= j < reads.len() ==> (#[trigger] reads[i]).len() <= (#[trigger] reads[j]).len(),
    ensures
        streamed(cursor, reads).1 == file.len(),
    decreases reads.len(),
{
    let m = read_move(cursor, reads[0]);
    let fresh = reads[0].subrange(cursor as int, reads[0].len() as int);
    if reads.len() == 1 {
        if !valid_utf8(fresh) {
            vstd::utf8::partial_valid_partial_invalid_utf8(file, cursor as int);
        }
        assert(streamed(m.cursor, reads.drop_first()).1 == m.cursor);
    } else {
        let rest = reads.drop_first();
        if valid_utf8(fresh) {
            vstd::utf8::valid_utf8_concat(file.subrange(0, cursor as int), fresh);
            assert(file.subrange(0, cursor as int) + fresh =~= file.subrange(
                0,
                reads[0].len() as int,
            ));
        }
        lemma_stream_reaches_end(m.cursor, rest, file);
    }
}

/// How far a call for the next chunk has come.
#[derive(Clone, Copy, Debug, PartialEq, Eq, Structural)]
pub enum TokenPhase {
    /// Asked whether the output file exists.
    AwaitingOutput,
    /// Asked to wait before looking for the output file again.
    OutputPause,
    /// Asked to read the output file.
    Reading,
    /// Asked whether the completion marker exists.
    CheckingDone,
    /// Asked to wait before reading the output file again.
    ReadPause,
    /// The completion marker exists; asked to read the output file a last
    /// time.
    LastLook,
    /// The client has its reply.
    Finished,
}

/// The next step of a call for the next chunk.
pub enum TokenStep {
    /// Carry this out and answer.
    Ask(IoRequest),
    /// Hand this to the client: a chunk, or `None` at the end of the stream.
    Reply(Option<String>),
}

/// A call for the next chunk that is under way.
#[derive(Clone, Copy, Debug, PartialEq, Eq, Structural)]
pub struct TokenPoll {
    /// The nonce of the job that is streamed.
    pub nonce: u64,
    pub phase: TokenPhase,
    /// How many pauses the current phase may still take.
    pub remaining: u32,
}

/// What a reply does to a call for the next chunk.
pub struct TokenMove {
    /// How many bytes the client has afterwards.
    pub cursor: nat,
    /// The call's phase afterwards.
    pub phase: TokenPhase,
    /// The pauses left afterwards.
    pub remaining: u32,
    /// The operation asked for next, if any.
    pub ask: Option<IoRequest>,
    /// The chunk for the client, if no operation is asked for; without a
    /// chunk the stream is over.
    pub chunk: Option<Seq<char>>,
}

/// The file of a text job with the given role.
pub open spec fn text_file(nonce: u64, artifact: Artifact) -> JobFile {
    JobFile { kind: JobKind::Text, nonce, artifact }
}

/// The call goes on: in phase `phase` it asks for `request`.
pub open spec fn call_goes_on(
    cursor: nat,
    phase: TokenPhase,
    remaining: u32,
    request: IoRequest,
) -> TokenMove {
    TokenMove { cursor, phase, remaining, ask: Some(request), chunk: None }
}

/// The call is over: the client gets `chunk`.
pub open spec fn call_is_over(cursor: nat, remaining: u32, chunk: Option<Seq<char>>) -> TokenMove {
    TokenMove { cursor, phase: TokenPhase::Finished, remaining, ask: None, chunk }
}

/// A pause before another try, as long as pauses are left; else the end of
/// the stream.
pub open spec fn pause_or_end(
    cursor: nat,
    remaining: u32,
    pause: TokenPhase,
) -> TokenMove {
    if remaining > 0 {
        call_goes_on(cursor, pause, (remaining - 1) as u32, IoRequest::Sleep(POLL_MS))
    } else {
        call_is_over(cursor, remaining, None)
    }
}

/// What a reply does to a call for the next chunk of job `nonce`, for a
/// client that has `cursor` bytes. `current` says whether the session still
/// works on that job.
///
/// What a look at the output file finds, given the answer to the request
/// to read it: a file that could not be read shows nothing new.
pub open spec fn looked(cursor: nat, reply: IoReply) -> ReadMove {
    match reply {
        IoReply::Bytes(contents) => read_move(cursor, contents@),
        _ => ReadMove { cursor, chunk: None, truncated: false },
    }
}

/// The call waits for the output file to exist, pausing up to `TOKEN_POLLS`
/// times. Then it reads the file: new text is handed out at once; a
/// truncated file ends the stream. With nothing new the completion marker
/// is looked for. If it exists, the file is read a last time, since the
/// worker may have written its last bytes in between, and the stream ends
/// only if that look finds nothing new; else the file is read again after a
/// pause, up to `TOKEN_POLLS` times.
pub open spec fn token_move(
    current: bool,
    cursor: nat,
    nonce: u64,
    phase: TokenPhase,
    remaining: u32,
    reply: IoReply,
) -> TokenMove {
    if !current {
        call_is_over(cursor, remaining, None)
    } else {
        match phase {
            TokenPhase::AwaitingOutput => match reply {
                IoReply::Flag(true) => call_goes_on(
                    cursor,
                    TokenPhase::Reading,
                    TOKEN_POLLS,
                    IoRequest::Read(text_file(nonce, Artifact::Text)),
                ),
                _ => pause_or_end(cursor, remaining, TokenPhase::OutputPause),
            },
            TokenPhase::OutputPause => call_goes_on(
                cursor,
                TokenPhase::AwaitingOutput,
                remaining,
                IoRequest::Exists(text_file(nonce, Artifact::Text)),
            ),
            TokenPhase::Reading => {
                let found = looked(cursor, reply);
                if found.truncated {
                    call_is_over(cursor, remaining, None)
                } else {
                    match found.chunk {
                        Some(bytes) => call_is_over(
                            found.cursor,
                            remaining,
                            Some(decode_utf8(bytes)),
                        ),
                        None => call_goes_on(
                            found.cursor,
                            TokenPhase::CheckingDone,
                            remaining,
                            IoRequest::Exists(text_file(nonce, Artifact::Done)),
                        ),
                    }
                }
            },
            TokenPhase::CheckingDone => match reply {
                IoReply::Flag(true) => call_goes_on(
                    cursor,
                    TokenPhase::LastLook,
                    remaining,
                    IoRequest::Read(text_file(nonce, Artifact::Text)),
                ),
                _ => pause_or_end(cursor, remaining, TokenPhase::ReadPause),
            },
            TokenPhase::LastLook => {
                let found = looked(cursor, reply);
                if found.truncated {
                    call_is_over(cursor, remaining, None)
                } else {
                    match found.chunk {
                        Some(bytes) => call_is_over(
                            found.cursor,
                            remaining,
                            Some(decode_utf8(bytes)),
                        ),
                        None => call_is_over(found.cursor, remaining, None),
                    }
                }
            },
            TokenPhase::ReadPause => call_goes_on(
                cursor,
                TokenPhase::Reading,
                remaining,
                IoRequest::Read(text_file(nonce, Artifact::Text)),
            ),
            TokenPhase::Finished => call_is_over(cursor, remaining, None),
        }
    }
}

/// The step states what the move says: the operation it asks for, or its
/// reply.
pub open spec fn token_step_is(step: TokenStep, m: TokenMove) -> bool {
    match step {
        TokenStep::Ask(request) => m.ask == Some(request),
        TokenStep::Reply(Some(text)) => m.ask is None && m.chunk == Some(text@),
        TokenStep::Reply(None) => m.ask is None && m.chunk is None,
    }
}

impl OlianaServer {
    /// `other` is this session but for the cursor of the text stream.
    pub open spec fn same_jobs(&self, other: &Self) -> bool {
        &&& self.same_dirs(other)
        &&& self.state_of(JobKind::Text) == other.state_of(JobKind::Text)
        &&& self.state_of(JobKind::Image) == other.state_of(JobKind::Image)
    }

    /// Takes over what a look at the output file of the current text job
    /// found: `contents`, the whole file.
    pub fn take_new_text(&mut self, contents: &[u8]) -> (r: TextRead)
        ensures
            final(self).same_jobs(old(self)),
            ({
                let m = read_move(old(self).generate_text_next_byte_i as nat, contents@);
                &&& final(self).generate_text_next_byte_i == m.cursor
                &&& match r {
                    TextRead::Truncated => m.truncated,
                    TextRead::Pending => !m.truncated && m.chunk is None,
                    TextRead::Chunk(text) => !m.truncated && m.chunk == Some(encode_utf8(text@))
                        && text@ == decode_utf8(m.chunk->0),
                }
            }),
    {
        let cursor: usize = self.generate_text_next_byte_i;
        let n: usize = contents.len();
        if n < cursor {
            return TextRead::Truncated;
        }
        let fresh = slice_subrange(contents, cursor, n);
        match utf8_text(fresh) {
            Some(text) => {
                self.generate_text_next_byte_i = n;
                if n > cursor {
                    proof {
                        decode_utf8_encode_utf8(fresh@);
                    }
                    TextRead::Chunk(text)
                } else {
                    TextRead::Pending
                }
            },
            None => TextRead::Pending,
        }
    }

    /// Starts a call for the next chunk of the current text job. A session
    /// that has no text job gets the end of the stream at once.
    pub fn generate_text_next_token(&self) -> (r: (TokenPoll, TokenStep))
        ensures
            r.0.nonce == self.text_input_nonce,
            r.0.remaining == TOKEN_POLLS,
            if self.text_nonce_claimed {
                &&& r.0.phase == TokenPhase::AwaitingOutput
                &&& r.1 matches TokenStep::Ask(request) && request == IoRequest::Exists(
                    text_file(self.text_input_nonce, Artifact::Text),
                )
            } else {
                &&& r.0.phase == TokenPhase::Finished
                &&& r.1 matches TokenStep::Reply(None)
            },
    {
        let nonce: u64 = self.text_input_nonce;
        if self.text_nonce_claimed {
            (
                TokenPoll { nonce, phase: TokenPhase::AwaitingOutput, remaining: TOKEN_POLLS },
                TokenStep::Ask(
                    IoRequest::Exists(
                        JobFile { kind: JobKind::Text, nonce, artifact: Artifact::Text },
                    ),
                ),
            )
        } else {
            (
                TokenPoll { nonce, phase: TokenPhase::Finished, remaining: TOKEN_POLLS },
                TokenStep::Reply(None),
            )
        }
    }

    /// Takes the answer to the operation that the call asked for last and
    /// names the next step.
    pub fn next_token_reply(&mut self, poll: &mut TokenPoll, reply: IoReply) -> (step: TokenStep)
        ensures
            final(self).same_jobs(old(self)),
            final(poll).nonce == old(poll).nonce,
            ({
                let m = token_move(
                    old(self).text_nonce_claimed && old(self).text_input_nonce == old(poll).nonce,
                    old(self).generate_text_next_byte_i as nat,
                    old(poll).nonce,
                    old(poll).phase,
                    old(poll).remaining,
                    reply,
                );
                &&& final(self).generate_text_next_byte_i == m.cursor
                &&& final(poll).phase == m.phase
                &&& final(poll).remaining == m.remaining
                &&& token_step_is(step, m)
            }),
    {
        let nonce: u64 = poll.nonce;
        if !(self.text_nonce_claimed && self.text_input_nonce == nonce) {
            poll.phase = TokenPhase::Finished;
            return TokenStep::Reply(None);
        }
        let output = JobFile { kind: JobKind::Text, nonce, artifact: Artifact::Text };
        let done = JobFile { kind: JobKind::Text, nonce, artifact: Artifact::Done };
        match poll.phase {
            TokenPhase::AwaitingOutput => match reply {
                IoReply::Flag(true) => {
                    poll.phase = TokenPhase::Reading;
                    poll.remaining = TOKEN_POLLS;
                    TokenStep::Ask(IoRequest::Read(output))
                },
                _ => pause(poll, TokenPhase::OutputPause),
            },
            TokenPhase::OutputPause => {
                poll.phase = TokenPhase::AwaitingOutput;
                TokenStep::Ask(IoRequest::Exists(output))
            },
            TokenPhase::Reading => {
                let looked = match reply {
                    IoReply::Bytes(contents) => self.take_new_text(contents.as_slice()),
                    _ => TextRead::Pending,
                };
                match looked {
                    TextRead::Truncated => {
                        poll.phase = TokenPhase::Finished;
                        TokenStep::Reply(None)
                    },
                    TextRead::Chunk(text) => {
                        poll.phase = TokenPhase::Finished;
                        TokenStep::Reply(Some(text))
                    },
                    TextRead::Pending => {
                        poll.phase = TokenPhase::CheckingDone;
                        TokenStep::Ask(IoRequest::Exists(done))
                    },
                }
            },
            TokenPhase::CheckingDone => match reply {
                IoReply::Flag(true) => {
                    poll.phase = TokenPhase::LastLook;
                    TokenStep::Ask(IoRequest::Read(output))
                },
                _ => pause(poll, TokenPhase::ReadPause),
            },
            TokenPhase::LastLook => {
                let looked = match reply {
                    IoReply::Bytes(contents) => self.take_new_text(contents.as_slice()),
                    _ => TextRead::Pending,
                };
                poll.phase = TokenPhase::Finished;
                match looked {
                    TextRead::Chunk(text) => TokenStep::Reply(Some(text)),
                    _ => TokenStep::Reply(None),
                }
            },
            TokenPhase::ReadPause => {
                poll.phase = TokenPhase::Reading;
                TokenStep::Ask(IoRequest::Read(output))
            },
            TokenPhase::Finished => TokenStep::Reply(None),
        }
    }
}

fn pause(poll: &mut TokenPoll, phase: TokenPhase) -> (step: TokenStep)
    ensures
        final(poll).nonce == old(poll).nonce,
        final(poll).phase == if old(poll).remaining > 0 {
            phase
        } else {
            TokenPhase::Finished
        },
        final(poll).remaining == if old(poll).remaining > 0 {
            (old(poll).remaining - 1) as u32
        } else {
            old(poll).remaining
        },
        if old(poll).remaining > 0 {
            step matches TokenStep::Ask(request) && request == IoRequest::Sleep(POLL_MS)
        } else {
            step matches TokenStep::Reply(None)
        },
{
    if poll.remaining > 0 {
        poll.remaining = poll.remaining - 1;
        poll.phase = phase;
        TokenStep::Ask(IoRequest::Sleep(POLL_MS))
    } else {
        poll.phase = TokenPhase::Finished;
        TokenStep::Reply(None)
    }
}

/// How many steps a call for the next chunk can still take at most.
pub open spec fn token_budget(phase: TokenPhase, remaining: u32) -> nat {
    match phase {
        TokenPhase::Finished => 0,
        TokenPhase::LastLook => 1,
        TokenPhase::CheckingDone => (3 * remaining + 2) as nat,
        TokenPhase::Reading => (3 * remaining + 3) as nat,
        TokenPhase::ReadPause => (3 * remaining + 4) as nat,
        TokenPhase::AwaitingOutput => (3 * TOKEN_POLLS + 4 + 2 * remaining + 1) as nat,
        TokenPhase::OutputPause => (3 * TOKEN_POLLS + 4 + 2 * remaining + 2) as nat,
    }
}

/// Every call for the next chunk ends: each step that asks for an operation
/// brings the call closer to its end, whatever the answers are, and a step
/// that asks for none ends it.
pub proof fn lemma_token_call_ends(
    current: bool,
    cursor: nat,
    nonce: u64,
    phase: TokenPhase,
    remaining: u32,
    reply: IoReply,
)
    ensures
        ({
            let m = token_move(current, cursor, nonce, phase, remaining, reply);
            &&& m.ask is Some ==> token_budget(m.phase, m.remaining) < token_budget(
                phase,
                remaining,
            )
            &&& m.ask is None ==> m.phase == TokenPhase::Finished
        }),
{
}

/// The completion marker alone never ends a stream: once the marker is
/// seen the file is read again, and only that last look ends the stream,
/// with whatever it finds behind the cursor handed out. So what the worker
/// wrote before it set the marker is never left behind.
pub proof fn lemma_marker_is_followed_by_a_look(
    cursor: nat,
    nonce: u64,
    phase: TokenPhase,
    remaining: u32,
    reply: IoReply,
)
    ensures
        ({
            let m = token_move(true, cursor, nonce, phase, remaining, reply);
            &&& phase == TokenPhase::CheckingDone && reply == IoReply::Flag(true) ==> m.phase
                == TokenPhase::LastLook && m.ask == Some(
                IoRequest::Read(text_file(nonce, Artifact::Text)),
            ) && m.cursor == cursor
            &&& phase == TokenPhase::LastLook ==> m.ask is None && m.cursor == looked(
                cursor,
                reply,
            ).cursor && m.chunk == match looked(cursor, reply).chunk {
                Some(bytes) => Some(decode_utf8(bytes)),
                None => None,
            }
            &&& m.phase == TokenPhase::LastLook ==> phase == TokenPhase::CheckingDone && reply
                == IoReply::Flag(true)
        }),
{
}

} // verus!
