use oliana::client::{
    determine_if_we_have_local_gpu, drain_global_events_to_bevy, focus, make_visible,
    render_server_url_in_use, scan_for_an_open_tcp_port_at, tally_expected_num_subprocs,
    tally_server_subproc_restarts, text_listener, Args, ResponseFromAI,
};
use oliana::config::{
    choose_directories, per_proc_mem_fract, register_workers, resolve_port, run_local_server,
    worker_threads, DEFAULT_PORT, MAX_CHANNELS_PER_IP, MAX_PENDING_ACCEPTS,
};
use oliana::idle::{
    IdleController, IdleTransition, TickStep, IDLE_LIMIT_S, MAINTENANCE_MS, RESUME_TICK_MS,
    RESUME_WINDOW_MS,
};
use oliana::supervisor::TrackedProcs;

#[test]
fn cadence_constants() {
    assert_eq!(RESUME_TICK_MS, 80);
    assert_eq!(RESUME_WINDOW_MS, 20);
    assert_eq!(MAINTENANCE_MS, 2600);
    assert_eq!(IDLE_LIMIT_S, 24);
    assert_eq!(MAX_CHANNELS_PER_IP, 128);
    assert_eq!(MAX_PENDING_ACCEPTS, 10);
}

#[test]
fn maintenance_falls_due_every_thirty_third_tick() {
    let mut idle = IdleController::new();
    for round in 0..3 {
        for tick in 1..=32u64 {
            assert_eq!(idle.tick(), vec![TickStep::ResumeBriefly], "round {} tick {}", round, tick);
            assert_eq!(idle.ms_since_last_ensured_running, tick * 80);
        }
        assert_eq!(
            idle.tick(),
            vec![
                TickStep::ResumeBriefly,
                TickStep::EnsureAllRunning,
                TickStep::IdleCheck,
                TickStep::PublishDiagnostics
            ]
        );
        assert_eq!(idle.ms_since_last_ensured_running, 0);
    }
}

#[test]
fn a_count_out_of_range_falls_due_at_once() {
    let mut idle = IdleController::new();
    idle.ms_since_last_ensured_running = u64::MAX;
    assert_eq!(idle.tick().len(), 4);
    assert_eq!(idle.ms_since_last_ensured_running, 0);
}

#[test]
fn idle_suspend_and_resume() {
    let mut idle = IdleController::new();
    let mut procs = TrackedProcs::new("/track", "/bin", true, false);
    assert!(!idle.client_activity(&mut procs, Some(1000)));
    assert_eq!(idle.last_client_activity_s, 1000);

    let v = idle.idle_check(&mut procs, 1024);
    assert_eq!(v.idle_s, 24);
    assert_eq!(v.transition, None);
    assert!(!v.send_continue);
    assert!(!procs.procs_should_be_stopped);

    let v = idle.idle_check(&mut procs, 1025);
    assert_eq!(v.idle_s, 25);
    assert_eq!(v.transition, Some(IdleTransition::Suspending));
    assert!(!v.send_continue);
    assert!(procs.procs_should_be_stopped);
    assert_eq!(procs.resume_sigstop_procs(20).len(), 3);

    let v = idle.idle_check(&mut procs, 1030);
    assert_eq!(v.transition, None);
    assert!(procs.procs_should_be_stopped);

    assert!(idle.client_activity(&mut procs, Some(1031)));
    assert!(!procs.procs_should_be_stopped);
    assert!(procs.resume_sigstop_procs(20).is_empty());

    let v = idle.idle_check(&mut procs, 1032);
    assert_eq!(v.idle_s, 1);
    assert_eq!(v.transition, Some(IdleTransition::Resuming));
    assert!(!v.send_continue);
    assert!(!procs.procs_should_be_stopped);
}

#[test]
fn activity_at_an_unknown_time_clears_the_latch_and_leaves_the_clock() {
    let mut idle = IdleController::new();
    let mut procs = TrackedProcs::new("/track", "/bin", true, false);
    let _ = idle.client_activity(&mut procs, Some(700));
    let _ = procs.set_procs_should_be_stopped(true);
    assert!(idle.client_activity(&mut procs, None));
    assert!(!procs.procs_should_be_stopped);
    assert_eq!(idle.last_client_activity_s, 700);
}

#[test]
fn an_idle_check_that_clears_the_latch_continues_the_workers() {
    let mut idle = IdleController::new();
    let mut procs = TrackedProcs::new("/track", "/bin", true, false);
    let _ = idle.idle_check(&mut procs, 100);
    assert!(procs.procs_should_be_stopped);
    idle.last_client_activity_s = 90;
    let v = idle.idle_check(&mut procs, 100);
    assert!(v.send_continue);
    assert_eq!(v.transition, Some(IdleTransition::Resuming));
    assert!(!procs.procs_should_be_stopped);
}

#[test]
fn a_clock_that_went_back_counts_as_no_idle_time() {
    let mut idle = IdleController::new();
    let mut procs = TrackedProcs::new("/track", "/bin", true, false);
    let _ = idle.client_activity(&mut procs, Some(5000));
    let v = idle.idle_check(&mut procs, 10);
    assert_eq!(v.idle_s, 0);
    assert!(!procs.procs_should_be_stopped);
}

#[test]
fn a_host_that_cannot_suspend_is_never_latched_by_the_idle_check() {
    let mut idle = IdleController::new();
    let mut procs = TrackedProcs::new("/track", "/bin", false, false);
    let v = idle.idle_check(&mut procs, 1_000_000);
    assert_eq!(v.idle_s, 1_000_000);
    assert_eq!(v.transition, None);
    assert!(!v.send_continue);
    assert!(!procs.procs_should_be_stopped);
    assert!(!idle.last_tick_procs_should_be_stopped);
}

#[test]
fn port_comes_from_the_environment_if_it_is_one() {
    assert_eq!(DEFAULT_PORT, 9050);
    assert_eq!(resolve_port(None), 9050);
    assert_eq!(resolve_port(Some("8080")), 8080);
    assert_eq!(resolve_port(Some("0")), 0);
    assert_eq!(resolve_port(Some("65535")), 65535);
    assert_eq!(resolve_port(Some("65536")), 9050);
    assert_eq!(resolve_port(Some("http")), 9050);
    assert_eq!(resolve_port(Some("")), 9050);
    assert_eq!(resolve_port(Some(" 80")), 9050);
}

#[test]
fn at_least_two_threads() {
    assert_eq!(worker_threads(0), 2);
    assert_eq!(worker_threads(1), 2);
    assert_eq!(worker_threads(2), 2);
    assert_eq!(worker_threads(16), 16);
}

#[test]
fn memory_fraction_is_set_unless_given() {
    assert_eq!(per_proc_mem_fract(None), Some("0.40"));
    assert_eq!(per_proc_mem_fract(Some("")), Some("0.40"));
    assert_eq!(per_proc_mem_fract(Some("0.25")), None);
}

#[test]
fn local_server_runs_unless_told_not_to() {
    assert!(run_local_server(None));
    assert!(run_local_server(Some("")));
    assert!(run_local_server(Some("yes")));
    assert!(run_local_server(Some("1")));
    assert!(!run_local_server(Some("0")));
    assert!(!run_local_server(Some("f")));
    assert!(!run_local_server(Some("False")));
    assert!(!run_local_server(Some("of")));
    assert!(!run_local_server(Some("10")));
}

#[test]
fn the_two_workers_are_registered_with_their_directories() {
    let mut procs = TrackedProcs::new("/track", "/bin", true, false);
    register_workers(&mut procs, "/track/image-procesing", "/track/text-procesing");
    assert_eq!(procs.tracked_proc_args.len(), 2);
    assert_eq!(procs.tracked_proc_args[0].0, "oliana_images");
    assert_eq!(
        procs.tracked_proc_args[0].1,
        vec!["--workdir".to_string(), "/track/image-procesing".to_string()]
    );
    assert_eq!(procs.tracked_proc_args[1].0, "oliana_text");
    assert_eq!(
        procs.tracked_proc_args[1].1,
        vec!["--workdir".to_string(), "/track/text-procesing".to_string()]
    );
}

#[test]
fn seed_comes_from_the_environment_unless_set() {
    let mut args = Args { verbose: 2, random_seed: None };
    args.update_from_env(None);
    assert_eq!(args.random_seed, None);
    args.update_from_env(Some(""));
    assert_eq!(args.random_seed, None);
    args.update_from_env(Some("seed"));
    assert_eq!(args.random_seed, None);
    args.update_from_env(Some("42"));
    assert_eq!(args.random_seed, Some(42));
    args.update_from_env(Some("43"));
    assert_eq!(args.random_seed, Some(42));
    assert_eq!(args.verbose, 2);
    let fresh = Args::default();
    assert_eq!(fresh.verbose, 0);
    assert_eq!(fresh.random_seed, None);
}

#[test]
fn window_shows_at_the_third_frame() {
    assert!(!make_visible(0));
    assert!(!make_visible(2));
    assert!(make_visible(3));
    assert!(!make_visible(4));
}

#[test]
fn only_the_pressed_input_stays_active() {
    assert_eq!(focus(7, &vec![5, 7, 9, 7]), vec![true, false, true, false]);
    assert_eq!(focus(1, &vec![]), Vec::<bool>::new());
}

#[test]
fn submitted_text_becomes_a_text_prompt() {
    let prompt = text_listener("Tell me a story");
    assert_eq!(prompt.0, "text");
    assert_eq!(prompt.1, "Tell me a story");
}

#[test]
fn draining_takes_everything_in_order() {
    let mut queue = vec![
        ResponseFromAI("text".to_string(), "a".to_string()),
        ResponseFromAI("image".to_string(), "/tmp/x.png".to_string()),
    ];
    let taken = drain_global_events_to_bevy(&mut queue);
    assert!(queue.is_empty());
    assert_eq!(taken.len(), 2);
    assert_eq!(taken[0].1, "a");
    assert_eq!(taken[1].0, "image");
    assert!(drain_global_events_to_bevy(&mut queue).is_empty());
}

#[test]
fn server_line_lists_the_devices() {
    let devices = vec!["NVIDIA GA102".to_string(), "Intel UHD 620".to_string()];
    assert_eq!(
        render_server_url_in_use(48, "127.0.0.1:9050", &devices),
        Some("Server: 127.0.0.1:9050\n(0) NVIDIA GA102 // (1) Intel UHD 620".to_string())
    );
    assert_eq!(
        render_server_url_in_use(0, "host:1", &Vec::new()),
        Some("Server: host:1\n".to_string())
    );
    assert_eq!(
        render_server_url_in_use(24, "h", &vec!["one".to_string()]),
        Some("Server: h\n(0) one".to_string())
    );
    assert_eq!(render_server_url_in_use(25, "h", &devices), None);
}

#[test]
fn restarts_are_tallied() {
    let data = vec![("oliana_images".to_string(), 3u32), ("oliana_text".to_string(), 4u32)];
    assert_eq!(tally_server_subproc_restarts(&data), 7);
    assert_eq!(tally_expected_num_subprocs(&data), 2);
    assert_eq!(tally_server_subproc_restarts(&Vec::new()), 0);
    let big = vec![("a".to_string(), u32::MAX), ("b".to_string(), u32::MAX)];
    assert_eq!(tally_server_subproc_restarts(&big), 2 * (u32::MAX as usize));
}

#[test]
fn workers_that_keep_restarting_mean_no_gpu() {
    assert!(determine_if_we_have_local_gpu(2, 2, 2));
    assert!(determine_if_we_have_local_gpu(0, 2, 2));
    assert!(!determine_if_we_have_local_gpu(4, 8, 2));
    assert!(determine_if_we_have_local_gpu(8, 8, 2));
    assert!(determine_if_we_have_local_gpu(9, 8, 2));
}

#[test]
fn the_last_reachable_server_is_picked() {
    let servers = vec!["a:1".to_string(), "b:2".to_string(), "c:3".to_string()];
    assert_eq!(scan_for_an_open_tcp_port_at(&servers, &vec![true, true, false]), "b:2");
    assert_eq!(scan_for_an_open_tcp_port_at(&servers, &vec![false, false, false]), "");
    assert_eq!(scan_for_an_open_tcp_port_at(&servers, &vec![true]), "a:1");
    assert_eq!(scan_for_an_open_tcp_port_at(&servers, &vec![false, false, true, true]), "c:3");
}

#[test]
fn a_client_reads_until_its_patience_is_used_up() {
    let mut reading = oliana::client::ReplyLoop::new(true);
    assert_eq!(reading.remaining_allowed_errs, 12);
    assert!(reading.goes_on());
    reading.after_token(oliana::client::TokenOutcome::Chunk);
    assert_eq!(reading.remaining_allowed_errs, 12);
    reading.after_token(oliana::client::TokenOutcome::Failed);
    assert_eq!(reading.remaining_allowed_errs, 11);
    assert!(!reading.after_image_probe(Some(false)));
    assert!(!reading.after_image_probe(None));
    assert_eq!(reading.remaining_allowed_errs, 10);
    assert!(reading.image_pending);
    assert!(reading.after_image_probe(Some(true)));
    assert!(!reading.image_pending);
    assert!(!reading.after_image_probe(Some(true)));
    assert!(!reading.after_image_probe(None));
    assert_eq!(reading.remaining_allowed_errs, 10);
    reading.after_token(oliana::client::TokenOutcome::End);
    assert_eq!(reading.remaining_allowed_errs, 0);
    assert!(!reading.goes_on());
    reading.remaining_allowed_errs = i64::MIN + 3;
    reading.after_token(oliana::client::TokenOutcome::End);
    assert_eq!(reading.remaining_allowed_errs, i64::MIN);
}

#[test]
fn a_failed_accept_is_skipped_and_a_connection_served() {
    let ok: Result<u32, String> = Ok(7);
    match oliana::config::on_accept(ok) {
        oliana::config::AcceptStep::Serve(connection) => assert_eq!(connection, 7),
        oliana::config::AcceptStep::Skip => panic!("a connection was accepted"),
    }
    let failed: Result<u32, String> = Err("too many open files".to_string());
    match oliana::config::on_accept(failed) {
        oliana::config::AcceptStep::Serve(_) => panic!("nothing was accepted"),
        oliana::config::AcceptStep::Skip => {}
    }
}

#[test]
fn directories_default_to_the_current_directory_or_its_target() {
    let d = choose_directories("/home/o", None, None, false, None);
    assert_eq!(d.bin, "/home/o");
    assert_eq!(d.track, "/home/o");
    let d = choose_directories("/home/o", Some("/home/o/target"), None, false, None);
    assert_eq!(d.bin, "/home/o/target");
    assert_eq!(d.track, "/home/o/target");
}

#[test]
fn the_environment_overrides_the_directories() {
    let d = choose_directories("/home/o", Some("/home/o/target"), Some("/opt/bin"), true, None);
    assert_eq!(d.bin, "/opt/bin");
    assert_eq!(d.track, "/home/o/target");
    let d = choose_directories("/home/o", None, Some("/opt/bin"), false, Some("/var/track"));
    assert_eq!(d.bin, "/home/o");
    assert_eq!(d.track, "/var/track");
    let d = choose_directories("/home/o", None, None, true, Some("/var/track"));
    assert_eq!(d.bin, "/home/o");
    assert_eq!(d.track, "/var/track");
}
