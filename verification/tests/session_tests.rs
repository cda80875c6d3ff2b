use transcode_core::args::CompressionRequest;
use transcode_core::session::{
    CompressionSession, Diagnostic, ProcessSlot, SessionAction, StreamEvent, StreamOutcome,
};

fn request(output: &str, prefer_hardware: bool) -> CompressionRequest {
    CompressionRequest {
        input_path: "in.mp4".to_string(),
        output_path: output.to_string(),
        target_width: String::new(),
        target_height: String::new(),
        target_size_bytes: None,
        prefer_hardware,
    }
}

#[test]
fn missing_input_fails_without_spawning() {
    let mut spawn_count = 0;
    let mut session = CompressionSession::new();
    let r = session.start(request("out.mp4", true), false);
    match &r {
        Err(Diagnostic::InputNotFound) => {}
        _ => panic!("expected InputNotFound"),
    }
    // No action was handed out, so nothing could have been spawned.
    if let Ok(SessionAction::Spawn { .. }) = r {
        spawn_count += 1;
    }
    assert_eq!(spawn_count, 0);
}

#[test]
fn webm_end_to_end_is_hardware_independent() {
    let expected = vec![
        "-i", "in.mp4", "-c:v", "libvpx-vp9", "-b:v", "0", "-crf", "30", "-c:a", "libopus",
        "-y", "out.webm",
    ];
    for hw in [false, true] {
        let mut session = CompressionSession::new();
        match session.start(request("out.webm", hw), true) {
            Ok(SessionAction::Spawn { command }) => assert_eq!(command.args, expected),
            _ => panic!("webm must spawn at once, with no probing"),
        }
    }
}

#[test]
fn hardware_mp4_probes_in_priority_order() {
    let mut session = CompressionSession::new();
    let first = session.start(request("out.mp4", true), true);
    let enc1 = match first {
        Ok(SessionAction::Probe { encoder }) => encoder,
        _ => panic!("expected a probe"),
    };
    assert_eq!(enc1, "h264_nvenc");
    let enc2 = match session.probe_result(false) {
        SessionAction::Probe { encoder } => encoder,
        _ => panic!("expected a second probe"),
    };
    assert_eq!(enc2, "h264_videotoolbox");
    match session.probe_result(true) {
        SessionAction::Spawn { command } => {
            assert!(command.args.iter().any(|a| a == "h264_videotoolbox"));
            assert!(command.args.iter().any(|a| a == "-pix_fmt"));
        }
        _ => panic!("a successful probe must end resolution"),
    }
}

#[test]
fn all_probes_failing_spawns_software_baseline() {
    let mut session = CompressionSession::new();
    session.start(request("out.mp4", true), true).unwrap();
    let mut action = session.probe_result(false);
    let mut probes = vec!["h264_nvenc".to_string()];
    loop {
        match action {
            SessionAction::Probe { encoder } => {
                probes.push(encoder);
                action = session.probe_result(false);
            }
            SessionAction::Spawn { command } => {
                assert!(command.args.iter().any(|a| a == "libx264"));
                break;
            }
        }
    }
    assert_eq!(
        probes,
        vec!["h264_nvenc", "h264_videotoolbox", "h264_amf", "h264_qsv"]
    );
}

#[test]
fn spawn_failure_is_terminal() {
    let mut session = CompressionSession::new();
    session.start(request("out.webm", false), true).unwrap();
    match session.spawn_result(false, "engine binary missing".to_string()) {
        Some(Diagnostic::SpawnError { detail }) => {
            assert_eq!(detail, "engine binary missing");
        }
        _ => panic!("expected SpawnError"),
    }
}

#[test]
fn stderr_lines_are_forwarded_and_last_one_kept() {
    let mut session = CompressionSession::new();
    session.start(request("out.webm", false), true).unwrap();
    assert!(session.spawn_result(true, String::new()).is_none());
    match session.stream_event(StreamEvent::StderrLine("frame=1".to_string())) {
        StreamOutcome::Forwarded { line } => assert_eq!(line, "frame=1"),
        _ => panic!("stderr must be forwarded"),
    }
    match session.stream_event(StreamEvent::StderrLine("broken input".to_string())) {
        StreamOutcome::Forwarded { line } => assert_eq!(line, "broken input"),
        _ => panic!("stderr must be forwarded"),
    }
    match session.stream_event(StreamEvent::Terminated(Some(1))) {
        StreamOutcome::Ended { result } => match result {
            Err(Diagnostic::EngineError { code, last_line }) => {
                assert_eq!(code, 1);
                assert_eq!(last_line, "broken input");
            }
            _ => panic!("non-zero exit must fail with EngineError"),
        },
        _ => panic!("termination must end the run"),
    }
}

#[test]
fn stdout_is_ignored() {
    let mut session = CompressionSession::new();
    session.start(request("out.webm", false), true).unwrap();
    session.spawn_result(true, String::new());
    assert!(matches!(
        session.stream_event(StreamEvent::StdoutLine("noise".to_string())),
        StreamOutcome::Ignored
    ));
}

#[test]
fn zero_exit_succeeds() {
    let mut session = CompressionSession::new();
    session.start(request("out.webm", false), true).unwrap();
    session.spawn_result(true, String::new());
    match session.stream_event(StreamEvent::Terminated(Some(0))) {
        StreamOutcome::Ended { result } => assert!(result.is_ok()),
        _ => panic!("termination must end the run"),
    }
}

#[test]
fn stream_closure_alone_means_success() {
    let mut session = CompressionSession::new();
    session.start(request("out.gif", false), true).unwrap();
    session.spawn_result(true, String::new());
    match session.stream_event(StreamEvent::Closed) {
        StreamOutcome::Ended { result } => assert!(result.is_ok()),
        _ => panic!("closure must end the run"),
    }
    let mut other = CompressionSession::new();
    other.start(request("out.gif", false), true).unwrap();
    other.spawn_result(true, String::new());
    match other.stream_event(StreamEvent::Terminated(None)) {
        StreamOutcome::Ended { result } => assert!(result.is_ok()),
        _ => panic!("unknown exit must end the run"),
    }
}

#[test]
fn engine_error_before_any_output_keeps_default_line() {
    let mut session = CompressionSession::new();
    session.start(request("out.mp4", false), true).unwrap();
    session.spawn_result(true, String::new());
    match session.stream_event(StreamEvent::Terminated(Some(187))) {
        StreamOutcome::Ended { result } => match result {
            Err(Diagnostic::EngineError { code, last_line }) => {
                assert_eq!(code, 187);
                assert_eq!(last_line, "Unknown FFmpeg Error");
            }
            _ => panic!("expected EngineError"),
        },
        _ => panic!("termination must end the run"),
    }
}

#[test]
fn cancellation_mid_stream_fails_the_session() {
    // The full cancellation round: a running session, a tracked process, a
    // kill through the slot, and the session ending as failed, once.
    let mut session = CompressionSession::new();
    session.start(request("out.webm", false), true).unwrap();
    session.spawn_result(true, String::new());
    match session.stream_event(StreamEvent::StderrLine("frame=3".to_string())) {
        StreamOutcome::Forwarded { .. } => {}
        _ => panic!("stderr must be forwarded"),
    }
    let mut slot = ProcessSlot::new();
    slot.store(31337);
    // The cancellation entry point drains the slot and kills the handle...
    assert_eq!(slot.take_for_kill().ok(), Some(31337));
    // ...and the supervising loop then fails the session exactly once.
    let d = session.cancelled();
    assert!(matches!(d, Diagnostic::Cancelled));
    assert_eq!(d.message(), "Compression cancelled");
    // No second kill is possible: the slot is already empty.
    match slot.take_for_kill() {
        Err(Diagnostic::NoActiveProcess) => {}
        _ => panic!("the handle must not be killable twice"),
    }
}

#[test]
fn cancel_with_nothing_running_is_observable() {
    let mut slot = ProcessSlot::new();
    match slot.take_for_kill() {
        Err(Diagnostic::NoActiveProcess) => {}
        _ => panic!("expected NoActiveProcess"),
    }
}

#[test]
fn cancel_yields_handle_exactly_once() {
    let mut slot = ProcessSlot::new();
    slot.store(4711);
    assert_eq!(slot.take_for_kill().ok(), Some(4711));
    // The handle must not be killable a second time.
    match slot.take_for_kill() {
        Err(Diagnostic::NoActiveProcess) => {}
        _ => panic!("a second take must find the slot empty"),
    }
}

#[test]
fn new_spawn_replaces_stale_handle() {
    let mut slot = ProcessSlot::new();
    slot.store(1);
    slot.store(2);
    assert_eq!(slot.take_for_kill().ok(), Some(2));
}

#[test]
fn clearing_forgets_the_handle() {
    let mut slot = ProcessSlot::new();
    slot.store(9);
    slot.clear();
    assert!(slot.take_for_kill().is_err());
}

#[test]
fn diagnostic_messages() {
    assert_eq!(Diagnostic::InputNotFound.message(), "Input file not found");
    assert_eq!(
        Diagnostic::SpawnError { detail: "no sidecar".to_string() }.message(),
        "no sidecar"
    );
    assert_eq!(
        Diagnostic::EngineError { code: -9, last_line: "killed".to_string() }.message(),
        "Error (Code -9): killed"
    );
    assert_eq!(
        Diagnostic::NoActiveProcess.message(),
        "No active process to stop"
    );
    assert_eq!(
        Diagnostic::KillError { detail: "permission denied".to_string() }.message(),
        "permission denied"
    );
    assert_eq!(Diagnostic::Cancelled.message(), "Compression cancelled");
}
