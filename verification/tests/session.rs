use ffui::plan::Device;
use ffui::plan::TargetFormat;
use ffui::plan::TranscodeRequest;
use ffui::plan::output_path;
use ffui::probe::parse_duration_micros;
use ffui::session::Phase;
use ffui::session::Session;

fn encoding_session(total_us: u64, info: &str) -> Session {
    let mut s = Session::new();
    assert!(s.start());
    s.finish_probe(total_us, info.to_string());
    s
}

#[test]
fn new_session_is_idle() {
    let s = Session::new();
    assert_eq!(s.phase, Phase::Idle);
    assert!(!s.state.running);
    assert!(!s.state.completed);
    assert_eq!(s.state.progress_ppm, 0);
    assert_eq!(s.state.log, "");
    assert!(!s.state.cancel_requested);
}

#[test]
fn start_resets_observable_state() {
    let mut s = Session::new();
    assert!(s.start());
    s.finish_probe(1_000_000, "old run".to_string());
    let _ = s.observe_line(b"out_time_ms=500000");
    s.request_cancel();
    s.finalize_cancelled();
    assert_eq!(s.phase, Phase::Cancelled);

    assert!(s.start());
    assert_eq!(s.phase, Phase::Probing);
    assert!(s.state.running);
    assert!(!s.state.completed);
    assert_eq!(s.state.progress_ppm, 0);
    assert_eq!(s.state.log, "");
    assert!(!s.state.cancel_requested);
}

#[test]
fn start_while_running_is_rejected_without_change() {
    let mut s = encoding_session(10_000_000, "probe text");
    let _ = s.observe_line(b"out_time_ms=2500000");
    let before_phase = s.phase;
    let before_progress = s.state.progress_ppm;
    let before_log = s.state.log.clone();
    assert!(!s.start());
    assert_eq!(s.phase, before_phase);
    assert_eq!(s.state.progress_ppm, before_progress);
    assert_eq!(s.state.log, before_log);
    assert!(s.state.running);
}

#[test]
fn unknown_duration_disables_progress() {
    let mut s = encoding_session(0, "no duration");
    assert!(s.observe_line(b"out_time_ms=2500000"));
    assert_eq!(s.state.progress_ppm, 0);
    assert!(s.observe_line(b"out_time_ms=9999999"));
    assert_eq!(s.state.progress_ppm, 0);
    assert!(s.observe_line(b"frame=3"));
    assert_eq!(s.state.progress_ppm, 0);
}

#[test]
fn irrelevant_lines_leave_progress_alone() {
    let mut s = encoding_session(10_000_000, "");
    assert!(s.observe_line(b"out_time_ms=5000000"));
    assert_eq!(s.state.progress_ppm, 500_000);
    assert!(s.observe_line(b"frame=120"));
    assert!(s.observe_line(b"speed=1.5x"));
    assert!(s.observe_line(b"out_time_ms=garbage"));
    assert_eq!(s.state.progress_ppm, 500_000);
}

#[test]
fn cancel_before_any_line_still_ends_cancelled() {
    let mut s = encoding_session(10_000_000, "probe text");
    s.request_cancel();
    assert!(!s.observe_line(b"out_time_ms=2500000"));
    assert_eq!(s.state.progress_ppm, 0);
    s.finalize_cancelled();
    assert_eq!(s.phase, Phase::Cancelled);
    assert!(!s.state.running);
    assert!(!s.state.completed);
    assert_eq!(s.state.progress_ppm, 0);
    assert!(s.state.log.contains("cancelled"));
}

#[test]
fn cancel_is_idempotent_and_inert_when_not_running() {
    let mut s = Session::new();
    s.request_cancel();
    assert!(!s.state.cancel_requested);
    assert!(s.start());
    s.request_cancel();
    s.request_cancel();
    assert!(s.state.cancel_requested);
}

#[test]
fn empty_output_file_means_failure() {
    let mut s = encoding_session(10_000_000, "probe text");
    let _ = s.observe_line(b"out_time_ms=10000000");
    let completed = s.finalize_exit(Some(0));
    assert!(!completed);
    assert_eq!(s.phase, Phase::Failed);
    assert!(!s.state.running);
    assert!(!s.state.completed);
    assert_eq!(s.state.progress_ppm, 0);
    assert_eq!(
        s.state.log,
        "probe text\n=== transcode failed: output file missing or empty ===\n"
    );
}

#[test]
fn missing_output_file_means_failure() {
    let mut s = encoding_session(10_000_000, "probe text");
    let completed = s.finalize_exit(None);
    assert!(!completed);
    assert_eq!(s.phase, Phase::Failed);
    assert!(!s.state.completed);
    assert_eq!(s.state.progress_ppm, 0);
}

#[test]
fn nonempty_output_without_cancel_means_completed() {
    let mut s = encoding_session(10_000_000, "probe text");
    let completed = s.finalize_exit(Some(4096));
    assert!(completed);
    assert_eq!(s.phase, Phase::Completed);
    assert!(!s.state.running);
    assert!(s.state.completed);
    assert_eq!(s.state.progress_ppm, 1_000_000);
    assert!(s.state.log.contains("finished"));
}

#[test]
fn full_run_reaches_completed_through_expected_progression() {
    let req = TranscodeRequest {
        source_path: "clip.mkv".to_string(),
        target_format: TargetFormat::Mp4,
        device: Device::Cpu,
    };
    assert_eq!(output_path(&req), "clip.mkv.mp4");

    let total_us = parse_duration_micros(b"10.000000\n");
    assert_eq!(total_us, 10_000_000);

    let mut s = Session::new();
    assert!(s.start());
    s.finish_probe(total_us, "clip metadata".to_string());
    assert_eq!(s.state.log, "clip metadata");

    // 25.0 -> 50.0 -> 100.0 percent
    assert!(s.observe_line(b"out_time_ms=2500000"));
    assert_eq!(s.state.progress_ppm, 250_000);
    assert!(s.observe_line(b"out_time_ms=5000000"));
    assert_eq!(s.state.progress_ppm, 500_000);
    assert!(s.observe_line(b"out_time_ms=10000000"));
    assert_eq!(s.state.progress_ppm, 1_000_000);

    let completed = s.finalize_exit(Some(1_234_567));
    assert!(completed);
    assert_eq!(s.phase, Phase::Completed);
    assert!(s.state.completed);
    assert!(!s.state.running);
    assert_eq!(s.state.progress_ppm, 1_000_000);
}

#[test]
fn cancel_after_first_line_ends_cancelled_with_marker() {
    let total_us = parse_duration_micros(b"10.000000\n");
    let mut s = Session::new();
    assert!(s.start());
    s.finish_probe(total_us, "clip metadata".to_string());

    assert!(s.observe_line(b"out_time_ms=2500000"));
    assert_eq!(s.state.progress_ppm, 250_000);

    s.request_cancel();
    assert!(!s.observe_line(b"out_time_ms=5000000"));
    assert_eq!(s.state.progress_ppm, 250_000);

    s.finalize_cancelled();
    assert_eq!(s.phase, Phase::Cancelled);
    assert!(!s.state.running);
    assert!(!s.state.completed);
    assert_eq!(s.state.progress_ppm, 0);
    assert_eq!(s.state.log, "clip metadata\n=== transcode cancelled ===\n");
}

#[test]
fn launch_failure_leaves_running_false_and_state_untouched() {
    let mut s = Session::new();
    assert!(s.start());
    s.abort_launch();
    assert_eq!(s.phase, Phase::Failed);
    assert!(!s.state.running);
    assert!(!s.state.completed);
    assert_eq!(s.state.progress_ppm, 0);
    assert_eq!(s.state.log, "");
}

#[test]
fn spawn_failure_after_probe_ends_failed_with_log_kept() {
    let mut s = encoding_session(10_000_000, "probe text");
    s.abort_launch();
    assert_eq!(s.phase, Phase::Failed);
    assert!(!s.state.running);
    assert!(!s.state.completed);
    assert_eq!(s.state.log, "probe text");
    assert_eq!(s.total_us, 10_000_000);
}

#[test]
fn progress_beyond_total_reads_fully_complete() {
    let mut s = encoding_session(10_000_000, "");
    assert!(s.observe_line(b"out_time_ms=15000000"));
    assert_eq!(s.state.progress_ppm, 1_000_000);
}
