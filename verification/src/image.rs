//! Fetching the result of an image job: the dialogue that waits for the
//! picture or the worker's error message and reads what has come.

use crate::session::{Artifact, IoReply, IoRequest, JobFile, JobKind, OlianaServer};
use crate::stream::{utf8_text, POLL_MS};
use vstd::prelude::*;
use vstd::utf8::{decode_utf8, valid_utf8};

verus! {

/// A call waits for a result while this count, which goes down by one with
/// each pause, is above one.
pub const IMAGE_WAIT_POLLS: u32 = 240;

/// A call samples the picture's length while this count, which goes down
/// by one with each changed sample, is above one.
pub const IMAGE_SETTLE_POLLS: u32 = 40;

/// How far a call for the result has come.
#[derive(Clone, Copy, Debug, PartialEq, Eq, Structural)]
pub enum ImagePhase {
    /// Waiting for a result; asked whether the error message exists.
    AwaitError,
    /// Waiting for a result; asked whether the picture exists.
    AwaitPicture,
    /// Waiting for a result; asked to pause.
    WaitPause,
    /// The wait is over; asked whether the picture exists.
    CheckingPicture,
    /// Asked to pause before the picture's length is sampled; the last
    /// sample was `last`.
    SettlePause { last: u64 },
    /// Asked for the picture's length; the last sample was `last`.
    Sizing { last: u64 },
    /// Asked to pause before the picture is read.
    FinalPause,
    /// Asked to read the picture.
    ReadingPicture,
    /// Asked whether the error message exists.
    CheckingError,
    /// Asked to read the error message.
    ReadingError,
    /// The client has its reply.
    Finished,
}

/// The next step of a call for the result.
pub enum ImageStep {
    /// Carry this out and answer.
    Ask(IoRequest),
    /// Hand `bytes` to the client, the picture or nothing, and write
    /// `error`, the worker's error message, to the log.
    Reply { bytes: Vec<u8>, error: Option<String> },
}

/// A call for the result that is under way.
pub struct ImagePoll {
    /// The nonce of the job.
    pub nonce: u64,
    pub phase: ImagePhase,
    /// The count that bounds the current wait.
    pub remaining: u32,
    /// The picture, once read.
    pub bytes: Vec<u8>,
}

/// What a reply does to a call for the result.
pub struct ImageMove {
    /// The call's phase afterwards.
    pub phase: ImagePhase,
    /// The count afterwards.
    pub remaining: u32,
    /// The picture held afterwards.
    pub bytes: Seq<u8>,
    /// The operation asked for next, if any.
    pub ask: Option<IoRequest>,
    /// The worker's error message for the log, if no operation is asked
    /// for and there is one.
    pub error: Option<Seq<char>>,
}

/// The file of an image job with the given role.
pub open spec fn image_file(nonce: u64, artifact: Artifact) -> JobFile {
    JobFile { kind: JobKind::Image, nonce, artifact }
}

/// The call goes on: in phase `phase` it asks for `request`.
pub open spec fn fetch_goes_on(
    phase: ImagePhase,
    remaining: u32,
    bytes: Seq<u8>,
    request: IoRequest,
) -> ImageMove {
    ImageMove { phase, remaining, bytes, ask: Some(request), error: None }
}

/// The call is over: the client gets `bytes`, the log `error`.
pub open spec fn fetch_is_over(
    remaining: u32,
    bytes: Seq<u8>,
    error: Option<Seq<char>>,
) -> ImageMove {
    ImageMove { phase: ImagePhase::Finished, remaining, bytes, ask: None, error }
}

/// The wait for a result is over: the picture is looked for.
pub open spec fn wait_over(nonce: u64, remaining: u32, bytes: Seq<u8>) -> ImageMove {
    fetch_goes_on(
        ImagePhase::CheckingPicture,
        remaining,
        bytes,
        IoRequest::Exists(image_file(nonce, Artifact::Picture)),
    )
}

/// The picture's length is sampled once more after a pause, as long as the
/// count is above one; else the picture is read after a last pause.
pub open spec fn settle(remaining: u32, bytes: Seq<u8>, last: u64) -> ImageMove {
    if remaining > 1 {
        fetch_goes_on(ImagePhase::SettlePause { last }, remaining, bytes, IoRequest::Sleep(POLL_MS))
    } else {
        fetch_goes_on(ImagePhase::FinalPause, remaining, bytes, IoRequest::Sleep(POLL_MS))
    }
}

/// The error message for the log: the text of the file, or nothing where
/// the file could not be read as text.
pub open spec fn error_text(reply: IoReply) -> Seq<char> {
    match reply {
        IoReply::Bytes(contents) => if valid_utf8(contents@) {
            decode_utf8(contents@)
        } else {
            Seq::empty()
        },
        _ => Seq::empty(),
    }
}

/// What a reply does to a call for the result of image job `nonce`.
/// `current` says whether the session still works on that job.
///
/// The call waits until the error message or the picture exists, pausing
/// while the count, which starts at `IMAGE_WAIT_POLLS`, is above one. If the
/// picture exists then, its length is sampled after each pause until two
/// samples in a row agree, the first being compared with zero and a failed
/// sample counting as one, or until the count, which starts again at
/// `IMAGE_SETTLE_POLLS`, is down to one; after one more pause the picture is
/// read, and a failed read yields no bytes. Last, if the error message
/// exists, it is read for the log.
pub open spec fn image_move(
    current: bool,
    nonce: u64,
    phase: ImagePhase,
    remaining: u32,
    bytes: Seq<u8>,
    reply: IoReply,
) -> ImageMove {
    if !current {
        fetch_is_over(remaining, bytes, None)
    } else {
        match phase {
            ImagePhase::AwaitError => match reply {
                IoReply::Flag(true) => wait_over(nonce, remaining, bytes),
                _ => fetch_goes_on(
                    ImagePhase::AwaitPicture,
                    remaining,
                    bytes,
                    IoRequest::Exists(image_file(nonce, Artifact::Picture)),
                ),
            },
            ImagePhase::AwaitPicture => match reply {
                IoReply::Flag(true) => wait_over(nonce, remaining, bytes),
                _ => if remaining > 1 {
                    fetch_goes_on(
                        ImagePhase::WaitPause,
                        (remaining - 1) as u32,
                        bytes,
                        IoRequest::Sleep(POLL_MS),
                    )
                } else {
                    wait_over(nonce, remaining, bytes)
                },
            },
            ImagePhase::WaitPause => fetch_goes_on(
                ImagePhase::AwaitError,
                remaining,
                bytes,
                IoRequest::Exists(image_file(nonce, Artifact::Text)),
            ),
            ImagePhase::CheckingPicture => match reply {
                IoReply::Flag(true) => settle(IMAGE_SETTLE_POLLS, bytes, 0),
                _ => fetch_goes_on(
                    ImagePhase::CheckingError,
                    remaining,
                    bytes,
                    IoRequest::Exists(image_file(nonce, Artifact::Text)),
                ),
            },
            ImagePhase::SettlePause { last } => fetch_goes_on(
                ImagePhase::Sizing { last },
                remaining,
                bytes,
                IoRequest::Size(image_file(nonce, Artifact::Picture)),
            ),
            ImagePhase::Sizing { last } => {
                let sample: u64 = match reply {
                    IoReply::Size(len) => len,
                    _ => 1,
                };
                if sample == last {
                    fetch_goes_on(
                        ImagePhase::FinalPause,
                        remaining,
                        bytes,
                        IoRequest::Sleep(POLL_MS),
                    )
                } else if remaining > 0 {
                    settle((remaining - 1) as u32, bytes, sample)
                } else {
                    settle(remaining, bytes, sample)
                }
            },
            ImagePhase::FinalPause => fetch_goes_on(
                ImagePhase::ReadingPicture,
                remaining,
                bytes,
                IoRequest::Read(image_file(nonce, Artifact::Picture)),
            ),
            ImagePhase::ReadingPicture => fetch_goes_on(
                ImagePhase::CheckingError,
                remaining,
                match reply {
                    IoReply::Bytes(contents) => contents@,
                    _ => bytes,
                },
                IoRequest::Exists(image_file(nonce, Artifact::Text)),
            ),
            ImagePhase::CheckingError => match reply {
                IoReply::Flag(true) => fetch_goes_on(
                    ImagePhase::ReadingError,
                    remaining,
                    bytes,
                    IoRequest::Read(image_file(nonce, Artifact::Text)),
                ),
                _ => fetch_is_over(remaining, bytes, None),
            },
            ImagePhase::ReadingError => fetch_is_over(remaining, bytes, Some(error_text(reply))),
            ImagePhase::Finished => fetch_is_over(remaining, bytes, None),
        }
    }
}

/// The step states what the move says: the operation it asks for, or its
/// reply.
pub open spec fn image_step_is(step: ImageStep, m: ImageMove) -> bool {
    match step {
        ImageStep::Ask(request) => m.ask == Some(request),
        ImageStep::Reply { bytes, error } => m.ask is None && bytes@ == m.bytes && match error {
            Some(text) => m.error == Some(text@),
            None => m.error is None,
        },
    }
}

fn take_bytes(poll: &mut ImagePoll) -> (r: Vec<u8>)
    ensures
        r@ == old(poll).bytes@,
        final(poll).nonce == old(poll).nonce,
        final(poll).phase == old(poll).phase,
        final(poll).remaining == old(poll).remaining,
{
    let mut out: Vec<u8> = Vec::new();
    core::mem::swap(&mut out, &mut poll.bytes);
    out
}

fn settle_step(poll: &mut ImagePoll, remaining: u32, last: u64) -> (step: ImageStep)
    ensures
        final(poll).nonce == old(poll).nonce,
        final(poll).bytes@ == old(poll).bytes@,
        final(poll).phase == settle(remaining, old(poll).bytes@, last).phase,
        final(poll).remaining == remaining,
        image_step_is(step, settle(remaining, old(poll).bytes@, last)),
{
    poll.remaining = remaining;
    if remaining > 1 {
        poll.phase = ImagePhase::SettlePause { last };
    } else {
        poll.phase = ImagePhase::FinalPause;
    }
    ImageStep::Ask(IoRequest::Sleep(POLL_MS))
}

impl OlianaServer {
    /// Whether the current image job has a result, given whether its
    /// picture and its error message exist: one of them will do. A session
    /// that has no image job has no result.
    pub fn generate_image_result_exists(&self, picture_exists: bool, error_exists: bool) -> (r:
        bool)
        ensures
            r == (self.image_nonce_claimed && (picture_exists || error_exists)),
    {
        self.image_nonce_claimed && (picture_exists || error_exists)
    }

    /// Starts a call for the result of the current image job. A session
    /// that has no image job gets no bytes at once.
    pub fn generate_image_get_result(&self) -> (r: (ImagePoll, ImageStep))
        ensures
            r.0.nonce == self.image_input_nonce,
            r.0.remaining == IMAGE_WAIT_POLLS,
            r.0.bytes@.len() == 0,
            if self.image_nonce_claimed {
                &&& r.0.phase == ImagePhase::AwaitError
                &&& r.1 matches ImageStep::Ask(request) && request == IoRequest::Exists(
                    image_file(self.image_input_nonce, Artifact::Text),
                )
            } else {
                &&& r.0.phase == ImagePhase::Finished
                &&& r.1 matches ImageStep::Reply { bytes, error } && bytes@.len() == 0
                    && error is None
            },
    {
        let nonce: u64 = self.image_input_nonce;
        if self.image_nonce_claimed {
            (
                ImagePoll {
                    nonce,
                    phase: ImagePhase::AwaitError,
                    remaining: IMAGE_WAIT_POLLS,
                    bytes: Vec::new(),
                },
                ImageStep::Ask(
                    IoRequest::Exists(
                        JobFile { kind: JobKind::Image, nonce, artifact: Artifact::Text },
                    ),
                ),
            )
        } else {
            (
                ImagePoll {
                    nonce,
                    phase: ImagePhase::Finished,
                    remaining: IMAGE_WAIT_POLLS,
                    bytes: Vec::new(),
                },
                ImageStep::Reply { bytes: Vec::new(), error: None },
            )
        }
    }

    /// Takes the answer to the operation that the call asked for last and
    /// names the next step.
    pub fn image_result_reply(&self, poll: &mut ImagePoll, reply: IoReply) -> (step: ImageStep)
        ensures
            final(poll).nonce == old(poll).nonce,
            ({
                let m = image_move(
                    self.image_nonce_claimed && self.image_input_nonce == old(poll).nonce,
                    old(poll).nonce,
                    old(poll).phase,
                    old(poll).remaining,
                    old(poll).bytes@,
                    reply,
                );
                &&& final(poll).phase == m.phase
                &&& final(poll).remaining == m.remaining
                &&& (m.ask is Some ==> final(poll).bytes@ == m.bytes)
                &&& image_step_is(step, m)
            }),
    {
        let nonce: u64 = poll.nonce;
        if !(self.image_nonce_claimed && self.image_input_nonce == nonce) {
            poll.phase = ImagePhase::Finished;
            return ImageStep::Reply { bytes: take_bytes(poll), error: None };
        }
        let picture = JobFile { kind: JobKind::Image, nonce, artifact: Artifact::Picture };
        let message = JobFile { kind: JobKind::Image, nonce, artifact: Artifact::Text };
        match poll.phase {
            ImagePhase::AwaitError => match reply {
                IoReply::Flag(true) => {
                    poll.phase = ImagePhase::CheckingPicture;
                    ImageStep::Ask(IoRequest::Exists(picture))
                },
                _ => {
                    poll.phase = ImagePhase::AwaitPicture;
                    ImageStep::Ask(IoRequest::Exists(picture))
                },
            },
            ImagePhase::AwaitPicture => match reply {
                IoReply::Flag(true) => {
                    poll.phase = ImagePhase::CheckingPicture;
                    ImageStep::Ask(IoRequest::Exists(picture))
                },
                _ => {
                    if poll.remaining > 1 {
                        poll.remaining = poll.remaining - 1;
                        poll.phase = ImagePhase::WaitPause;
                        ImageStep::Ask(IoRequest::Sleep(POLL_MS))
                    } else {
                        poll.phase = ImagePhase::CheckingPicture;
                        ImageStep::Ask(IoRequest::Exists(picture))
                    }
                },
            },
            ImagePhase::WaitPause => {
                poll.phase = ImagePhase::AwaitError;
                ImageStep::Ask(IoRequest::Exists(message))
            },
            ImagePhase::CheckingPicture => match reply {
                IoReply::Flag(true) => settle_step(poll, IMAGE_SETTLE_POLLS, 0),
                _ => {
                    poll.phase = ImagePhase::CheckingError;
                    ImageStep::Ask(IoRequest::Exists(message))
                },
            },
            ImagePhase::SettlePause { last } => {
                poll.phase = ImagePhase::Sizing { last };
                ImageStep::Ask(IoRequest::Size(picture))
            },
            ImagePhase::Sizing { last } => {
                let sample: u64 = match reply {
                    IoReply::Size(len) => len,
                    _ => 1,
                };
                if sample == last {
                    poll.phase = ImagePhase::FinalPause;
                    ImageStep::Ask(IoRequest::Sleep(POLL_MS))
                } else if poll.remaining > 0 {
                    let left: u32 = poll.remaining - 1;
                    settle_step(poll, left, sample)
                } else {
                    let left: u32 = poll.remaining;
                    settle_step(poll, left, sample)
                }
            },
            ImagePhase::FinalPause => {
                poll.phase = ImagePhase::ReadingPicture;
                ImageStep::Ask(IoRequest::Read(picture))
            },
            ImagePhase::ReadingPicture => {
                match reply {
                    IoReply::Bytes(contents) => {
                        poll.bytes = contents;
                    },
                    _ => {},
                }
                poll.phase = ImagePhase::CheckingError;
                ImageStep::Ask(IoRequest::Exists(message))
            },
            ImagePhase::CheckingError => match reply {
                IoReply::Flag(true) => {
                    poll.phase = ImagePhase::ReadingError;
                    ImageStep::Ask(IoRequest::Read(message))
                },
                _ => {
                    poll.phase = ImagePhase::Finished;
                    ImageStep::Reply { bytes: take_bytes(poll), error: None }
                },
            },
            ImagePhase::ReadingError => {
                let text: String = match reply {
                    IoReply::Bytes(contents) => match utf8_text(contents.as_slice()) {
                        Some(text) => text,
                        None => String::new(),
                    },
                    _ => String::new(),
                };
                poll.phase = ImagePhase::Finished;
                ImageStep::Reply { bytes: take_bytes(poll), error: Some(text) }
            },
            ImagePhase::Finished => ImageStep::Reply { bytes: take_bytes(poll), error: None },
        }
    }
}

/// How many steps a call for the result can still take at most.
pub open spec fn image_budget(phase: ImagePhase, remaining: u32) -> nat {
    let settled = (2 * IMAGE_SETTLE_POLLS + 10) as nat;
    match phase {
        ImagePhase::Finished => 0,
        ImagePhase::ReadingError => 1,
        ImagePhase::CheckingError => 2,
        ImagePhase::ReadingPicture => 3,
        ImagePhase::FinalPause => 4,
        ImagePhase::Sizing { last } => (5 + 2 * remaining) as nat,
        ImagePhase::SettlePause { last } => (6 + 2 * remaining) as nat,
        ImagePhase::CheckingPicture => (settled + 2 * remaining) as nat,
        ImagePhase::AwaitPicture => (settled + 5 * remaining + 2) as nat,
        ImagePhase::AwaitError => (settled + 5 * remaining + 3) as nat,
        ImagePhase::WaitPause => (settled + 5 * remaining + 4) as nat,
    }
}

/// Every call for the result ends: each step that asks for an operation
/// brings the call closer to its end, whatever the answers are, and a step
/// that asks for none ends it.
pub proof fn lemma_image_call_ends(
    current: bool,
    nonce: u64,
    phase: ImagePhase,
    remaining: u32,
    bytes: Seq<u8>,
    reply: IoReply,
)
    ensures
        ({
            let m = image_move(current, nonce, phase, remaining, bytes, reply);
            &&& m.ask is Some ==> image_budget(m.phase, m.remaining) < image_budget(
                phase,
                remaining,
            )
            &&& m.ask is None ==> m.phase == ImagePhase::Finished
        }),
{
}

} // verus!
