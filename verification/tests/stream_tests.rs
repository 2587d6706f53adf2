use oliana::session::{
    job_file_name, Artifact, BeginStep, IoReply, IoRequest, JobFile, JobKind, OlianaServer,
};
use oliana::stream::{TextRead, TokenPhase, TokenPoll, TokenStep, POLL_MS, TOKEN_POLLS};
use oliana::idle::IdleController;
use oliana::supervisor::TrackedProcs;
use std::collections::HashMap;

struct Disk {
    files: HashMap<String, Vec<u8>>,
    sleeps: u64,
    script: Vec<(u64, String, Vec<u8>)>,
}

fn disk() -> Disk {
    Disk { files: HashMap::new(), sleeps: 0, script: Vec::new() }
}

fn answer(disk: &mut Disk, request: IoRequest) -> IoReply {
    match request {
        IoRequest::Exists(file) => IoReply::Flag(disk.files.contains_key(&job_file_name(file))),
        IoRequest::Read(file) => match disk.files.get(&job_file_name(file)) {
            Some(bytes) => IoReply::Bytes(bytes.clone()),
            None => IoReply::Failed("no such file".to_string()),
        },
        IoRequest::Sleep(ms) => {
            assert_eq!(ms, POLL_MS);
            disk.sleeps += 1;
            let now = disk.sleeps;
            let due: Vec<(u64, String, Vec<u8>)> =
                disk.script.iter().filter(|e| e.0 == now).cloned().collect();
            for (_, name, bytes) in due {
                disk.files.entry(name).or_insert_with(Vec::new).extend_from_slice(&bytes);
            }
            IoReply::Done
        }
        IoRequest::Write(file) => {
            disk.files.insert(job_file_name(file), Vec::new());
            IoReply::Done
        }
        IoRequest::Remove(file) => {
            disk.files.remove(&job_file_name(file));
            IoReply::Done
        }
        IoRequest::Size(_) => IoReply::Failed("not asked for".to_string()),
    }
}

fn begin(server: &mut OlianaServer, disk: &mut Disk) {
    let mut idle = IdleController::new();
    let mut procs = TrackedProcs::new("/track", "/bin", true, false);
    let begun =
        server.generate_text_begin(&mut idle, &mut procs, Some(0), "You are a helper.", "Say hi.");
    let (mut job, mut step) = (begun.job, begun.step);
    loop {
        match step {
            BeginStep::Reply(text) => {
                assert_eq!(text, "");
                return;
            }
            BeginStep::Ask(request) => {
                let reply = answer(disk, request);
                step = server.begin_reply(&mut job, reply);
            }
        }
    }
}

fn next_token(server: &mut OlianaServer, disk: &mut Disk) -> Option<String> {
    let (mut poll, mut step) = server.generate_text_next_token();
    loop {
        match step {
            TokenStep::Reply(chunk) => return chunk,
            TokenStep::Ask(request) => {
                let reply = answer(disk, request);
                step = server.next_token_reply(&mut poll, reply);
            }
        }
    }
}

#[test]
fn begin_then_stream_one_chunk() {
    let mut server = OlianaServer::new("image", "text");
    let mut d = disk();
    begin(&mut server, &mut d);
    d.files.insert("0.txt".to_string(), b"Hi!".to_vec());
    d.files.insert("0.done".to_string(), b" ".to_vec());
    assert_eq!(next_token(&mut server, &mut d), Some("Hi!".to_string()));
    assert_eq!(next_token(&mut server, &mut d), None);
}

#[test]
fn streaming_in_chunks_keeps_the_order() {
    let mut server = OlianaServer::new("image", "text");
    let mut d = disk();
    begin(&mut server, &mut d);
    d.script.push((2, "0.txt".to_string(), b"Hello".to_vec()));
    d.script.push((3, "0.txt".to_string(), b" world".to_vec()));
    d.script.push((4, "0.done".to_string(), b" ".to_vec()));
    let mut all = String::new();
    let first = next_token(&mut server, &mut d);
    assert_eq!(first, Some("Hello".to_string()));
    all.push_str(&first.unwrap());
    let second = next_token(&mut server, &mut d);
    assert_eq!(second, Some(" world".to_string()));
    all.push_str(&second.unwrap());
    assert_eq!(next_token(&mut server, &mut d), None);
    assert_eq!(all, "Hello world");
    assert_eq!(all.as_bytes(), d.files.get("0.txt").unwrap().as_slice());
}

#[test]
fn a_session_without_a_job_streams_nothing() {
    let mut server = OlianaServer::new("image", "text");
    let mut d = disk();
    d.files.insert("0.txt".to_string(), b"someone else's".to_vec());
    assert_eq!(next_token(&mut server, &mut d), None);
    assert_eq!(d.sleeps, 0);
    let (poll, _) = server.generate_text_next_token();
    assert_eq!(poll.phase, TokenPhase::Finished);
}

#[test]
fn the_wait_for_the_output_is_bounded() {
    let mut server = OlianaServer::new("image", "text");
    let mut d = disk();
    begin(&mut server, &mut d);
    assert_eq!(next_token(&mut server, &mut d), None);
    assert_eq!(d.sleeps, TOKEN_POLLS as u64);
    assert_eq!(TOKEN_POLLS, 30);
    assert_eq!(POLL_MS, 100);
}

#[test]
fn the_wait_for_more_text_is_bounded() {
    let mut server = OlianaServer::new("image", "text");
    let mut d = disk();
    begin(&mut server, &mut d);
    d.files.insert("0.txt".to_string(), b"partial".to_vec());
    assert_eq!(next_token(&mut server, &mut d), Some("partial".to_string()));
    assert_eq!(d.sleeps, 0);
    assert_eq!(next_token(&mut server, &mut d), None);
    assert_eq!(d.sleeps, 30);
}

#[test]
fn a_missing_output_with_the_marker_ends_the_stream() {
    let mut server = OlianaServer::new("image", "text");
    begin(&mut server, &mut disk());
    let mut poll = TokenPoll { nonce: 0, phase: TokenPhase::Reading, remaining: 30 };
    match server.next_token_reply(&mut poll, IoReply::Failed("gone".to_string())) {
        TokenStep::Ask(request) => assert_eq!(
            request,
            IoRequest::Exists(JobFile { kind: JobKind::Text, nonce: 0, artifact: Artifact::Done })
        ),
        TokenStep::Reply(_) => panic!("the marker is looked for"),
    }
    match server.next_token_reply(&mut poll, IoReply::Flag(true)) {
        TokenStep::Ask(request) => assert_eq!(
            request,
            IoRequest::Read(JobFile { kind: JobKind::Text, nonce: 0, artifact: Artifact::Text })
        ),
        TokenStep::Reply(_) => panic!("the file is looked at a last time"),
    }
    assert_eq!(poll.phase, TokenPhase::LastLook);
    match server.next_token_reply(&mut poll, IoReply::Failed("gone".to_string())) {
        TokenStep::Reply(chunk) => assert_eq!(chunk, None),
        TokenStep::Ask(_) => panic!("the stream is over"),
    }
    assert_eq!(poll.phase, TokenPhase::Finished);
}

#[test]
fn bytes_written_just_before_the_marker_are_not_left_behind() {
    let mut server = OlianaServer::new("image", "text");
    begin(&mut server, &mut disk());
    let mut poll = TokenPoll { nonce: 0, phase: TokenPhase::Reading, remaining: 30 };
    match server.next_token_reply(&mut poll, IoReply::Bytes(Vec::new())) {
        TokenStep::Ask(request) => assert_eq!(
            request,
            IoRequest::Exists(JobFile { kind: JobKind::Text, nonce: 0, artifact: Artifact::Done })
        ),
        TokenStep::Reply(_) => panic!("the marker is looked for"),
    }
    match server.next_token_reply(&mut poll, IoReply::Flag(true)) {
        TokenStep::Ask(request) => assert_eq!(
            request,
            IoRequest::Read(JobFile { kind: JobKind::Text, nonce: 0, artifact: Artifact::Text })
        ),
        TokenStep::Reply(_) => panic!("the file is looked at a last time"),
    }
    match server.next_token_reply(&mut poll, IoReply::Bytes(b"last words".to_vec())) {
        TokenStep::Reply(chunk) => assert_eq!(chunk, Some("last words".to_string())),
        TokenStep::Ask(_) => panic!("the call is over"),
    }
    assert_eq!(server.read_generate_text_next_byte_i(), 10);
    let mut d = disk();
    d.files.insert("0.txt".to_string(), b"last words".to_vec());
    d.files.insert("0.done".to_string(), b" ".to_vec());
    assert_eq!(next_token(&mut server, &mut d), None);
}

#[test]
fn a_truncated_output_ends_the_stream() {
    let mut server = OlianaServer::new("image", "text");
    let mut d = disk();
    begin(&mut server, &mut d);
    d.files.insert("0.txt".to_string(), b"0123456789".to_vec());
    assert_eq!(next_token(&mut server, &mut d), Some("0123456789".to_string()));
    d.files.insert("0.txt".to_string(), b"0123".to_vec());
    assert_eq!(next_token(&mut server, &mut d), None);
    assert_eq!(d.sleeps, 0);
    assert_eq!(server.read_generate_text_next_byte_i(), 10);
}

#[test]
fn half_a_character_is_held_back_until_it_is_whole() {
    let mut server = OlianaServer::new("image", "text");
    begin(&mut server, &mut disk());
    let whole = "h\u{e9}llo".as_bytes();
    match server.take_new_text(&whole[..2]) {
        TextRead::Pending => {}
        _ => panic!("half a character is no text"),
    }
    assert_eq!(server.read_generate_text_next_byte_i(), 0);
    match server.take_new_text(&whole[..3]) {
        TextRead::Chunk(text) => assert_eq!(text, "h\u{e9}"),
        _ => panic!("two characters are there"),
    }
    assert_eq!(server.read_generate_text_next_byte_i(), 3);
    match server.take_new_text(&whole[..3]) {
        TextRead::Pending => {}
        _ => panic!("nothing is new"),
    }
    match server.take_new_text(whole) {
        TextRead::Chunk(text) => assert_eq!(text, "llo"),
        _ => panic!("three characters are new"),
    }
    assert_eq!(server.read_generate_text_next_byte_i(), 6);
    match server.take_new_text(&whole[..1]) {
        TextRead::Truncated => {}
        _ => panic!("the file has shrunk"),
    }
    assert_eq!(server.read_generate_text_next_byte_i(), 6);
}

#[test]
fn bytes_that_are_no_text_are_never_handed_out() {
    let mut server = OlianaServer::new("image", "text");
    begin(&mut server, &mut disk());
    match server.take_new_text(&[0xff, 0xfe, b'a']) {
        TextRead::Pending => {}
        _ => panic!("these bytes are no text"),
    }
    match server.take_new_text(&[0xed, 0xa0, 0x80]) {
        TextRead::Pending => {}
        _ => panic!("a surrogate is no text"),
    }
    match server.take_new_text(&[0xc0, 0xaf]) {
        TextRead::Pending => {}
        _ => panic!("an overlong form is no text"),
    }
    assert_eq!(server.read_generate_text_next_byte_i(), 0);
}

#[test]
fn chunks_put_together_are_the_file() {
    let mut server = OlianaServer::new("image", "text");
    begin(&mut server, &mut disk());
    let file = "Il \u{e9}tait une fois \u{1F600} \u{4e16}\u{754c}.\n".as_bytes();
    let mut delivered: Vec<u8> = Vec::new();
    let cuts = [0usize, 1, 4, 5, 5, 19, 20, 21, 22, 23, 26, 30, file.len()];
    for cut in cuts.iter() {
        match server.take_new_text(&file[..*cut]) {
            TextRead::Chunk(text) => delivered.extend_from_slice(text.as_bytes()),
            TextRead::Pending => {}
            TextRead::Truncated => panic!("the file only grows"),
        }
        assert_eq!(&delivered[..], &file[..server.read_generate_text_next_byte_i()]);
    }
    assert_eq!(&delivered[..], file);
}

#[test]
fn a_call_overtaken_by_a_new_job_ends() {
    let mut server = OlianaServer::new("image", "text");
    let mut d = disk();
    begin(&mut server, &mut d);
    let (mut poll, _) = server.generate_text_next_token();
    begin(&mut server, &mut d);
    assert_eq!(server.read_text_input_nonce(), 1);
    match server.next_token_reply(&mut poll, IoReply::Flag(true)) {
        TokenStep::Reply(chunk) => assert_eq!(chunk, None),
        TokenStep::Ask(_) => panic!("the call was overtaken"),
    }
}
