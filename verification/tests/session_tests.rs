use oliana::json::{
    assemble_image_descriptor, assemble_text_descriptor, image_input_json, text_input_json,
};
use oliana::session::{
    diagnostic, job_file_name, Artifact, BeginJob, BeginPhase, BeginStep, IoReply, IoRequest,
    JobFile, JobKind, NonceScan, NonceState, OlianaServer,
};
use oliana::idle::IdleController;
use oliana::supervisor::TrackedProcs;
use std::collections::HashMap;

fn start_text(server: &mut OlianaServer, system: &str, user: &str) -> (BeginJob, BeginStep) {
    let mut idle = IdleController::new();
    let mut procs = TrackedProcs::new("/track", "/bin", true, false);
    let begun = server.generate_text_begin(&mut idle, &mut procs, Some(0), system, user);
    (begun.job, begun.step)
}

fn start_image(
    server: &mut OlianaServer,
    prompt: &str,
    negative: &str,
    scale: &str,
    steps: u32,
) -> (BeginJob, BeginStep) {
    let mut idle = IdleController::new();
    let mut procs = TrackedProcs::new("/track", "/bin", true, false);
    let begun =
        server.generate_image_begin(&mut idle, &mut procs, Some(0), prompt, negative, scale, steps);
    (begun.job, begun.step)
}

struct Disk {
    files: HashMap<String, Vec<u8>>,
    fail_writes: bool,
    fail_removes: bool,
    removed: Vec<String>,
    written: Vec<String>,
}

fn disk() -> Disk {
    Disk {
        files: HashMap::new(),
        fail_writes: false,
        fail_removes: false,
        removed: Vec::new(),
        written: Vec::new(),
    }
}

fn path(file: JobFile) -> String {
    let dir = match file.kind {
        JobKind::Text => "text",
        JobKind::Image => "image",
    };
    format!("{}/{}", dir, job_file_name(file))
}

fn answer(disk: &mut Disk, request: IoRequest, payload: &str) -> IoReply {
    match request {
        IoRequest::Exists(file) => IoReply::Flag(disk.files.contains_key(&path(file))),
        IoRequest::Remove(file) => {
            if disk.fail_removes {
                IoReply::Failed("remove refused".to_string())
            } else {
                disk.files.remove(&path(file));
                disk.removed.push(path(file));
                IoReply::Done
            }
        }
        IoRequest::Write(file) => {
            if disk.fail_writes {
                IoReply::Failed("disk full".to_string())
            } else if disk.files.contains_key(&path(file)) {
                IoReply::Taken
            } else {
                disk.files.insert(path(file), payload.as_bytes().to_vec());
                disk.written.push(path(file));
                IoReply::Done
            }
        }
        IoRequest::Read(file) => match disk.files.get(&path(file)) {
            Some(bytes) => IoReply::Bytes(bytes.clone()),
            None => IoReply::Failed("no such file".to_string()),
        },
        IoRequest::Size(file) => match disk.files.get(&path(file)) {
            Some(bytes) => IoReply::Size(bytes.len() as u64),
            None => IoReply::Failed("no such file".to_string()),
        },
        IoRequest::Sleep(_) => IoReply::Done,
    }
}

fn run(server: &mut OlianaServer, disk: &mut Disk, start: (BeginJob, BeginStep)) -> String {
    let (mut job, mut step) = start;
    loop {
        match step {
            BeginStep::Reply(text) => return text,
            BeginStep::Ask(request) => {
                let reply = answer(disk, request, job.payload());
                step = server.begin_reply(&mut job, reply);
            }
        }
    }
}

fn begin_text(server: &mut OlianaServer, disk: &mut Disk) -> String {
    let start = start_text(server, "You are a helper.", "Say hi.");
    run(server, disk, start)
}

fn file(kind: JobKind, nonce: u64, artifact: Artifact) -> JobFile {
    JobFile { kind, nonce, artifact }
}

#[test]
fn job_files_are_named_by_nonce_and_role() {
    assert_eq!(job_file_name(file(JobKind::Text, 0, Artifact::Input)), "0.json");
    assert_eq!(job_file_name(file(JobKind::Text, 12, Artifact::Text)), "12.txt");
    assert_eq!(job_file_name(file(JobKind::Image, 7, Artifact::Picture)), "7.png");
    assert_eq!(job_file_name(file(JobKind::Text, u64::MAX, Artifact::Done)), "18446744073709551615.done");
}

#[test]
fn a_new_session_stands_at_nonce_zero() {
    let s = OlianaServer::new("/work/image", "/work/text");
    assert_eq!(s.read_text_input_nonce(), 0);
    assert_eq!(s.read_image_input_nonce(), 0);
    assert_eq!(s.read_generate_text_next_byte_i(), 0);
    assert_eq!(s.nonce_state(JobKind::Text), NonceState { nonce: 0, claimed: false });
    assert_eq!(s.workdir(JobKind::Text), "/work/text");
    assert_eq!(s.workdir(JobKind::Image), "/work/image");
    assert_eq!(s.get_current_text_input_json_path(), "0.json");
    assert_eq!(s.get_current_text_output_txt_path(), "0.txt");
    assert_eq!(s.get_current_text_output_done_path(), "0.done");
    assert_eq!(s.get_current_image_input_json_path(), "0.json");
    assert_eq!(s.get_current_image_output_png_path(), "0.png");
    assert_eq!(s.get_current_image_output_txt_path(), "0.txt");
}

#[test]
fn text_descriptor_has_both_prompts() {
    let text = text_input_json("You are a helper.", "Say hi.");
    assert_eq!(text, "{\"system_prompt\":\"You are a helper.\",\"user_prompt\":\"Say hi.\"}");
}

#[test]
fn text_descriptor_escapes_what_json_must_escape() {
    let text = text_input_json("line\nbreak \"quoted\" back\\slash\ttab", "caf\u{e9} \u{1}");
    assert_eq!(
        text,
        "{\"system_prompt\":\"line\\nbreak \\\"quoted\\\" back\\\\slash\\ttab\",\"user_prompt\":\"caf\u{e9} \\u0001\"}"
    );
    let parsed: serde_json::Value = serde_json::from_str(&text).expect("a JSON object");
    assert_eq!(
        parsed.get("system_prompt").and_then(|v| v.as_str()),
        Some("line\nbreak \"quoted\" back\\slash\ttab")
    );
    assert_eq!(parsed.get("user_prompt").and_then(|v| v.as_str()), Some("caf\u{e9} \u{1}"));
}

#[test]
fn every_character_is_quoted_as_the_table_says() {
    let mut text = String::new();
    let mut expected = String::from("{\"system_prompt\":\"");
    for code in 0u32..0x2000 {
        let c = char::from_u32(code).unwrap();
        text.push(c);
        match c {
            '"' => expected.push_str("\\\""),
            '\\' => expected.push_str("\\\\"),
            '\u{8}' => expected.push_str("\\b"),
            '\t' => expected.push_str("\\t"),
            '\n' => expected.push_str("\\n"),
            '\u{c}' => expected.push_str("\\f"),
            '\r' => expected.push_str("\\r"),
            c if (c as u32) < 0x20 => expected.push_str(&format!("\\u00{:02x}", c as u32)),
            c => expected.push(c),
        }
    }
    text.push('\u{1F600}');
    expected.push('\u{1F600}');
    expected.push_str("\",\"user_prompt\":\"\"}");
    assert_eq!(text_input_json(&text, ""), expected);
}

#[test]
fn text_descriptor_is_what_serde_json_prints() {
    let mut object = serde_json::Map::new();
    object.insert("system_prompt".to_string(), serde_json::Value::String("a \"b\"".to_string()));
    object.insert("user_prompt".to_string(), serde_json::Value::String("c\\d\n".to_string()));
    let expected = serde_json::Value::Object(object).to_string();
    assert_eq!(text_input_json("a \"b\"", "c\\d\n"), expected);
}

#[test]
fn image_descriptor_has_all_four_fields() {
    let text = image_input_json("a cat", "", "3.5", 10);
    assert_eq!(
        text,
        "{\"guidance_scale\":3.5,\"negative_prompt\":\"\",\"num_inference_steps\":10,\"prompt\":\"a cat\"}"
    );
    let mut object = serde_json::Map::new();
    object.insert("prompt".to_string(), serde_json::Value::String("a cat".to_string()));
    object.insert("negative_prompt".to_string(), serde_json::Value::String(String::new()));
    object.insert("guidance_scale".to_string(), serde_json::Value::from(3.5f32));
    object.insert("num_inference_steps".to_string(), serde_json::Value::from(10u32));
    assert_eq!(text, serde_json::Value::Object(object).to_string());
}

#[test]
fn descriptors_are_assembled_from_ready_literals() {
    assert_eq!(
        assemble_text_descriptor("\"s\"", "\"u\""),
        "{\"system_prompt\":\"s\",\"user_prompt\":\"u\"}"
    );
    assert_eq!(
        assemble_image_descriptor("\"p\"", "\"n\"", "7.0", 4294967295),
        "{\"guidance_scale\":7.0,\"negative_prompt\":\"n\",\"num_inference_steps\":4294967295,\"prompt\":\"p\"}"
    );
}

#[test]
fn diagnostic_puts_the_label_in_brackets() {
    assert_eq!(diagnostic("tokio::fs::write", "disk full"), "[ tokio::fs::write ] disk full");
}

#[test]
fn begin_on_an_empty_directory_writes_nonce_zero() {
    let mut server = OlianaServer::new("image", "text");
    let mut d = disk();
    let reply = begin_text(&mut server, &mut d);
    assert_eq!(reply, "");
    assert_eq!(d.written, vec!["text/0.json".to_string()]);
    assert_eq!(
        d.files.get("text/0.json").map(|b| b.as_slice()),
        Some("{\"system_prompt\":\"You are a helper.\",\"user_prompt\":\"Say hi.\"}".as_bytes())
    );
    assert_eq!(server.nonce_state(JobKind::Text), NonceState { nonce: 0, claimed: true });
    assert_eq!(server.nonce_state(JobKind::Image), NonceState { nonce: 0, claimed: false });
}

#[test]
fn successive_jobs_get_increasing_nonces() {
    let mut server = OlianaServer::new("image", "text");
    let mut d = disk();
    let mut last: Option<u64> = None;
    for _ in 0..5 {
        assert_eq!(begin_text(&mut server, &mut d), "");
        let now = server.read_text_input_nonce();
        if let Some(before) = last {
            assert!(now > before);
        }
        last = Some(now);
    }
    assert_eq!(
        d.written,
        vec!["text/0.json", "text/1.json", "text/2.json", "text/3.json", "text/4.json"]
    );
}

#[test]
fn a_nonce_is_not_used_again_even_if_its_descriptor_is_gone() {
    let mut server = OlianaServer::new("image", "text");
    let mut d = disk();
    assert_eq!(begin_text(&mut server, &mut d), "");
    d.files.clear();
    assert_eq!(begin_text(&mut server, &mut d), "");
    assert_eq!(server.read_text_input_nonce(), 1);
    assert_eq!(d.written, vec!["text/0.json", "text/1.json"]);
}

#[test]
fn begin_skips_descriptors_that_exist() {
    let mut server = OlianaServer::new("image", "text");
    let mut d = disk();
    d.files.insert("text/0.json".to_string(), vec![]);
    d.files.insert("text/1.json".to_string(), vec![]);
    d.files.insert("text/3.json".to_string(), vec![]);
    assert_eq!(begin_text(&mut server, &mut d), "");
    assert_eq!(server.read_text_input_nonce(), 2);
    assert_eq!(begin_text(&mut server, &mut d), "");
    assert_eq!(server.read_text_input_nonce(), 4);
}

#[test]
fn begin_removes_stale_outputs_before_it_writes() {
    let mut server = OlianaServer::new("image", "text");
    let mut d = disk();
    d.files.insert("text/0.txt".to_string(), b"old".to_vec());
    d.files.insert("text/0.done".to_string(), b" ".to_vec());
    assert_eq!(begin_text(&mut server, &mut d), "");
    assert_eq!(d.removed, vec!["text/0.txt", "text/0.done"]);
    assert!(d.files.contains_key("text/0.json"));
    assert!(!d.files.contains_key("text/0.txt"));
    assert!(!d.files.contains_key("text/0.done"));
}

#[test]
fn image_begin_is_like_text_begin_in_its_own_directory() {
    let mut server = OlianaServer::new("image", "text");
    let mut d = disk();
    d.files.insert("image/0.png".to_string(), b"old".to_vec());
    d.files.insert("image/0.txt".to_string(), b"old".to_vec());
    let start = start_image(&mut server, "a cat", "", "3.5", 10);
    let reply = run(&mut server, &mut d, start);
    assert_eq!(reply, "");
    assert_eq!(d.removed, vec!["image/0.txt", "image/0.png"]);
    assert_eq!(d.written, vec!["image/0.json"]);
    assert_eq!(
        d.files.get("image/0.json").map(|b| b.as_slice()),
        Some(
            "{\"guidance_scale\":3.5,\"negative_prompt\":\"\",\"num_inference_steps\":10,\"prompt\":\"a cat\"}"
                .as_bytes()
        )
    );
    assert_eq!(server.nonce_state(JobKind::Image), NonceState { nonce: 0, claimed: true });
    assert_eq!(server.nonce_state(JobKind::Text), NonceState { nonce: 0, claimed: false });
}

#[test]
fn begin_stamps_the_clock_and_clears_the_latch() {
    let mut server = OlianaServer::new("image", "text");
    let mut idle = IdleController::new();
    let mut procs = TrackedProcs::new("/track", "/bin", true, false);
    let _ = procs.set_procs_should_be_stopped(true);
    let begun = server.generate_text_begin(&mut idle, &mut procs, Some(1234), "s", "u");
    assert!(begun.send_continue);
    assert!(!procs.procs_should_be_stopped);
    assert_eq!(idle.last_client_activity_s, 1234);
    let _ = procs.set_procs_should_be_stopped(true);
    let begun = server.generate_image_begin(&mut idle, &mut procs, None, "p", "n", "1.5", 2);
    assert!(begun.send_continue);
    assert!(!procs.procs_should_be_stopped);
    assert_eq!(idle.last_client_activity_s, 1234);
    let begun = server.generate_text_begin(&mut idle, &mut procs, Some(1301), "s", "u");
    assert!(!begun.send_continue);
    assert_eq!(idle.last_client_activity_s, 1301);
}

#[test]
fn text_begin_resets_the_stream_cursor() {
    let mut server = OlianaServer::new("image", "text");
    server.generate_text_next_byte_i = 99;
    let _ = start_image(&mut server, "p", "n", "1.0", 1);
    assert_eq!(server.read_generate_text_next_byte_i(), 99);
    let _ = start_text(&mut server, "s", "u");
    assert_eq!(server.read_generate_text_next_byte_i(), 0);
}

#[test]
fn a_failed_write_is_told_to_the_client() {
    let mut server = OlianaServer::new("image", "text");
    let mut d = disk();
    d.fail_writes = true;
    assert_eq!(begin_text(&mut server, &mut d), "[ tokio::fs::write ] disk full");
    d.fail_writes = false;
    assert_eq!(begin_text(&mut server, &mut d), "");
    assert_eq!(server.read_text_input_nonce(), 1);
}

#[test]
fn a_failed_removal_is_told_to_the_client() {
    let mut server = OlianaServer::new("image", "text");
    let mut d = disk();
    d.files.insert("text/0.txt".to_string(), b"old".to_vec());
    d.fail_removes = true;
    assert_eq!(begin_text(&mut server, &mut d), "[ tokio::fs::remove_file ] remove refused");
    assert!(d.written.is_empty());
    assert_eq!(server.nonce_state(JobKind::Text), NonceState { nonce: 0, claimed: false });
}

#[test]
fn a_failed_probe_is_told_to_the_client() {
    let mut server = OlianaServer::new("image", "text");
    let (mut job, _) = start_text(&mut server, "s", "u");
    match server.begin_reply(&mut job, IoReply::Failed("permission denied".to_string())) {
        BeginStep::Reply(text) => assert_eq!(
            text,
            "[ increment_to_next_free_text_input_nonce ] permission denied"
        ),
        BeginStep::Ask(_) => panic!("the job is over"),
    }
    assert_eq!(job.phase, BeginPhase::Finished);
    let (mut job, _) = start_image(&mut server, "p", "n", "1", 1);
    match server.begin_reply(&mut job, IoReply::Failed("permission denied".to_string())) {
        BeginStep::Reply(text) => assert_eq!(
            text,
            "[ increment_to_next_free_image_input_nonce ] permission denied"
        ),
        BeginStep::Ask(_) => panic!("the job is over"),
    }
}

#[test]
fn the_last_nonce_cannot_be_left_behind() {
    let mut server = OlianaServer::new("image", "text");
    server.text_input_nonce = u64::MAX;
    let (mut job, _) = start_text(&mut server, "s", "u");
    match server.begin_reply(&mut job, IoReply::Flag(true)) {
        BeginStep::Reply(text) => assert_eq!(
            text,
            "[ increment_to_next_free_text_input_nonce ] no nonce is left"
        ),
        BeginStep::Ask(_) => panic!("the job is over"),
    }
    assert_eq!(server.read_text_input_nonce(), u64::MAX);
}

#[test]
fn probe_answers_move_the_nonce() {
    let mut server = OlianaServer::new("image", "text");
    assert_eq!(server.increment_to_next_free_text_input_nonce(true), NonceScan::Taken);
    assert_eq!(server.read_text_input_nonce(), 1);
    assert_eq!(server.increment_to_next_free_text_input_nonce(false), NonceScan::Free(1));
    assert_eq!(server.read_text_input_nonce(), 1);
    assert_eq!(server.increment_to_next_free_image_input_nonce(false), NonceScan::Free(0));
    server.image_nonce_claimed = true;
    assert_eq!(server.increment_to_next_free_image_input_nonce(false), NonceScan::Taken);
    assert_eq!(server.nonce_state(JobKind::Image), NonceState { nonce: 1, claimed: false });
    server.image_input_nonce = u64::MAX;
    assert_eq!(server.increment_to_next_free_image_input_nonce(true), NonceScan::Exhausted);
    assert_eq!(server.increment_to_next_free_nonce(JobKind::Text, true), NonceScan::Taken);
    assert_eq!(server.read_text_input_nonce(), 2);
}

#[test]
fn a_job_that_was_overtaken_writes_nothing() {
    let mut server = OlianaServer::new("image", "text");
    let mut d = disk();
    let (mut slow, first) = start_text(&mut server, "slow", "job");
    let step = match first {
        BeginStep::Ask(request) => {
            let reply = answer(&mut d, request, "");
            server.begin_reply(&mut slow, reply)
        }
        BeginStep::Reply(_) => panic!("the job has only begun"),
    };
    match step {
        BeginStep::Ask(request) => {
            assert_eq!(request, IoRequest::Exists(file(JobKind::Text, 0, Artifact::Text)))
        }
        BeginStep::Reply(_) => panic!("the job goes on"),
    }
    assert_eq!(begin_text(&mut server, &mut d), "");
    assert_eq!(d.written, vec!["text/0.json"]);
    match server.begin_reply(&mut slow, IoReply::Flag(false)) {
        BeginStep::Reply(text) => assert_eq!(text, "[ session ] the job was superseded"),
        BeginStep::Ask(_) => panic!("the job was overtaken"),
    }
    assert_eq!(d.written, vec!["text/0.json"]);
    match server.begin_reply(&mut slow, IoReply::Done) {
        BeginStep::Reply(text) => assert_eq!(text, "[ session ] the job is over"),
        BeginStep::Ask(_) => panic!("the job is over"),
    }
}

#[test]
fn a_descriptor_that_another_session_wrote_is_not_written_over() {
    let mut a = OlianaServer::new("image", "text");
    let mut b = OlianaServer::new("image", "text");
    let mut d = disk();
    let (mut job_a, mut step_a) = start_text(&mut a, "from", "a");
    loop {
        match step_a {
            BeginStep::Ask(IoRequest::Write(_)) => break,
            BeginStep::Ask(request) => {
                let reply = answer(&mut d, request, job_a.payload());
                step_a = a.begin_reply(&mut job_a, reply);
            }
            BeginStep::Reply(_) => panic!("the descriptor is still to be written"),
        }
    }
    let start_b = start_text(&mut b, "from", "b");
    assert_eq!(run(&mut b, &mut d, start_b), "");
    assert_eq!(b.read_text_input_nonce(), 0);
    let theirs = d.files.get("text/0.json").cloned();

    assert_eq!(run(&mut a, &mut d, (job_a, step_a)), "");
    assert_eq!(a.read_text_input_nonce(), 1);
    assert_eq!(a.nonce_state(JobKind::Text), NonceState { nonce: 1, claimed: true });
    assert_eq!(d.files.get("text/0.json").cloned(), theirs);
    assert_eq!(d.written, vec!["text/0.json", "text/1.json"]);
    assert_eq!(
        d.files.get("text/1.json").map(|b| b.as_slice()),
        Some("{\"system_prompt\":\"from\",\"user_prompt\":\"a\"}".as_bytes())
    );
}

#[test]
fn the_last_nonce_taken_by_another_ends_the_job() {
    let mut server = OlianaServer::new("image", "text");
    server.text_input_nonce = u64::MAX;
    server.text_nonce_claimed = true;
    let mut job = BeginJob {
        kind: JobKind::Text,
        nonce: u64::MAX,
        phase: BeginPhase::Writing,
        payload: String::new(),
    };
    match server.begin_reply(&mut job, IoReply::Taken) {
        BeginStep::Reply(text) => assert_eq!(
            text,
            "[ increment_to_next_free_text_input_nonce ] no nonce is left"
        ),
        BeginStep::Ask(_) => panic!("the job is over"),
    }
}

#[test]
fn a_reply_that_answers_nothing_ends_the_job() {
    let mut server = OlianaServer::new("image", "text");
    let (mut job, _) = start_text(&mut server, "s", "u");
    match server.begin_reply(&mut job, IoReply::Size(3)) {
        BeginStep::Reply(text) => assert_eq!(
            text,
            "[ increment_to_next_free_text_input_nonce ] unexpected reply"
        ),
        BeginStep::Ask(_) => panic!("the job is over"),
    }
    let mut job = BeginJob {
        kind: JobKind::Text,
        nonce: 0,
        phase: BeginPhase::Writing,
        payload: String::new(),
    };
    match server.begin_reply(&mut job, IoReply::Flag(true)) {
        BeginStep::Reply(text) => assert_eq!(text, "[ tokio::fs::write ] unexpected reply"),
        BeginStep::Ask(_) => panic!("the job is over"),
    }
}
