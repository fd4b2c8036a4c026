use gvrunner::args::ProcessArgs;
use gvrunner::supervisor::artifact_path;
use gvrunner::supervisor::run_transcript;
use gvrunner::supervisor::FailureReason;
use gvrunner::supervisor::JobResult;
use gvrunner::supervisor::LineStep;
use gvrunner::supervisor::Supervisor;

fn request() -> ProcessArgs {
    ProcessArgs {
        videos: vec!["a.mp4".to_string(), "b.mp4".to_string()],
        output_dir: "/out".to_string(),
        preset: "balanced".to_string(),
        colmap_path: None,
        brush_path: None,
    }
}

fn lines(raw: &[&str]) -> Vec<String> {
    raw.iter().map(|l| l.to_string()).collect()
}

#[test]
fn three_line_transcript() {
    let transcript = lines(&[
        "{\"stage\":\"align\",\"progress\":0.5}",
        "warming up",
        "{\"stage\":\"mesh\",\"progress\":1.0,\"message\":\"done\"}",
    ]);
    let (events, result) = run_transcript(&request(), &transcript, true, String::new());
    assert_eq!(events.len(), 2);
    assert_eq!(events[0].stage, "align");
    assert_eq!(events[0].progress, "0.5");
    assert!(events[0].message.is_none());
    assert_eq!(events[1].stage, "mesh");
    assert_eq!(events[1].progress, "1.0");
    assert_eq!(events[1].message.as_deref(), Some("done"));
    match result {
        JobResult::Success { artifact_path } => assert_eq!(artifact_path, "/out/output.ply"),
        JobResult::Failure { .. } => panic!("expected success"),
    }
}

#[test]
fn clean_exit_succeeds_despite_noise() {
    let transcript = lines(&["noise", "{not json", "  ", "more noise"]);
    let (events, result) = run_transcript(&request(), &transcript, true, String::new());
    assert!(events.is_empty());
    match result {
        JobResult::Success { artifact_path } => assert_eq!(artifact_path, "/out/output.ply"),
        JobResult::Failure { .. } => panic!("expected success"),
    }
}

#[test]
fn nonzero_exit_fails_with_status() {
    let transcript = lines(&["{\"stage\":\"align\",\"progress\":0.5}"]);
    let (events, result) = run_transcript(&request(), &transcript, false, "exit status: 3".to_string());
    assert_eq!(events.len(), 1);
    match result {
        JobResult::Failure { reason, detail } => {
            assert_eq!(reason, FailureReason::NonZeroExit);
            assert_eq!(detail, "exit status: 3");
        },
        JobResult::Success { .. } => panic!("expected failure"),
    }
}

#[test]
fn cancel_before_first_line_wins() {
    let mut sup = Supervisor::new(&request());
    let step = sup.step_line(true, "{\"stage\":\"align\",\"progress\":0.5}");
    match step {
        LineStep::Cancelled(JobResult::Failure { reason, detail }) => {
            assert_eq!(reason, FailureReason::Cancelled);
            assert_eq!(detail, "Processing cancelled");
        },
        _ => panic!("expected cancellation"),
    }
}

#[test]
fn spawn_failure_is_terminal_with_no_events() {
    let mut sup = Supervisor::new(&request());
    let forwarded: Vec<gvrunner::progress::ProgressEvent> = Vec::new();
    let result = sup.fail_spawn("no such executable".to_string());
    match result {
        JobResult::Failure { reason, detail } => {
            assert_eq!(reason, FailureReason::SpawnError);
            assert_eq!(detail, "no such executable");
        },
        JobResult::Success { .. } => panic!("expected spawn failure"),
    }
    assert!(forwarded.is_empty());
}

#[test]
fn read_failure_is_io_error() {
    let mut sup = Supervisor::new(&request());
    let result = sup.fail_read("broken pipe".to_string());
    match result {
        JobResult::Failure { reason, detail } => {
            assert_eq!(reason, FailureReason::IoError);
            assert_eq!(detail, "broken pipe");
        },
        JobResult::Success { .. } => panic!("expected read failure"),
    }
}

#[test]
fn skip_and_emit_steps() {
    let mut sup = Supervisor::new(&request());
    match sup.step_line(false, "noise") {
        LineStep::Skip => {},
        _ => panic!("expected skip"),
    }
    match sup.step_line(false, "{\"stage\":\"s\",\"progress\":1}") {
        LineStep::Emit(ev) => {
            assert_eq!(ev.stage, "s");
            assert_eq!(ev.progress, "1");
        },
        _ => panic!("expected emit"),
    }
}

#[test]
fn artifact_path_is_fixed_name_in_output_dir() {
    assert_eq!(artifact_path("/out"), "/out/output.ply");
    assert_eq!(artifact_path("relative/dir"), "relative/dir/output.ply");
}
