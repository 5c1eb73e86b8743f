use recording::ffmpeg::Stream;
use recording::session::{slot_owns_attachment, SlotReading};
use recording::state::{settle_recording_task, take_running_task, TaskExit};
use recording::{
    build_ffmpeg_command, owns_attachment, recording_start, recording_stop, validate_fps,
    CaptureSession, RecordingState, SharedCaptureSession, DEFAULT_FPS, MAX_FPS,
};
use std::sync::atomic::{AtomicU64, Ordering};
use std::sync::{Arc, Mutex};

#[test]
fn test_recording_state_new() {
    let state = RecordingState::new();
    assert!(!state.active);
    assert!(state.output_path.is_empty());
    assert_eq!(state.frame_count, 0);
    assert_eq!(state.fps, DEFAULT_FPS);
}

#[test]
fn test_recording_start_sets_active() {
    let mut state = RecordingState::new();
    let result = recording_start(&mut state, "/tmp/test.mp4", None);
    assert!(result.is_ok());
    assert!(state.active);
    assert_eq!(state.output_path, "/tmp/test.mp4");
    assert_eq!(state.frame_count, 0);
    assert_eq!(state.fps, 30);
    assert_eq!(result.unwrap()["fps"], 30);
}

#[test]
fn test_recording_start_honors_requested_fps() {
    let mut state = RecordingState::new();
    let result = recording_start(&mut state, "/tmp/test.webm", Some(60)).unwrap();
    assert_eq!(state.fps, 60);
    assert_eq!(result["fps"], 60);
}

#[test]
fn test_recording_start_rejects_out_of_range_fps() {
    let mut state = RecordingState::new();
    let too_high = recording_start(&mut state, "/tmp/test.webm", Some(61));
    assert!(too_high.unwrap_err().contains("valid range: 1-60"));
    assert!(!state.active);

    let zero = recording_start(&mut state, "/tmp/test.webm", Some(0));
    assert!(zero.is_err());
    assert!(!state.active);
}

#[test]
fn test_recording_start_while_active() {
    let mut state = RecordingState::new();
    recording_start(&mut state, "/tmp/test1.mp4", None).unwrap();
    let result = recording_start(&mut state, "/tmp/test2.mp4", None);
    assert!(result.is_err());
    assert!(result.unwrap_err().contains("already active"));
}

#[test]
fn test_recording_stop_not_active() {
    let mut state = RecordingState::new();
    let result = recording_stop(&mut state);
    assert!(result.is_err());
    assert!(result.unwrap_err().contains("No recording"));
}

#[test]
fn test_recording_stop_no_frames() {
    let mut state = RecordingState::new();
    recording_start(&mut state, "/tmp/test.mp4", None).unwrap();
    let result = recording_stop(&mut state);
    assert!(result.is_err());
    assert!(result.unwrap_err().contains("No frames"));
    assert!(!state.active);
}

#[test]
fn test_recording_stop_reports_fps() {
    let mut state = RecordingState::new();
    recording_start(&mut state, "/tmp/test.webm", Some(60)).unwrap();
    state.frame_count = 120;
    let result = recording_stop(&mut state).unwrap();
    assert_eq!(result["frames"], 120);
    assert_eq!(result["fps"], 60);
}

#[test]
fn test_capture_session_matches_by_target_while_attach_is_in_flight() {
    let shared: SharedCaptureSession = Arc::new(Mutex::new(Some(CaptureSession {
        target_id: "T-REC".into(),
        session_id: None,
    })));
    assert!(owns_attachment(&shared, "T-REC", "S-ANY"));
    assert!(!owns_attachment(&shared, "T-OTHER", "S-ANY"));
}

#[test]
fn test_capture_session_matches_by_session_once_attached() {
    let shared: SharedCaptureSession = Arc::new(Mutex::new(Some(CaptureSession {
        target_id: "T-REC".into(),
        session_id: Some("S-REC".into()),
    })));
    assert!(owns_attachment(&shared, "T-REC", "S-REC"));
    // A later attachment to the same target (e.g. the daemon's own) is
    // not the recorder's.
    assert!(!owns_attachment(&shared, "T-REC", "S-OTHER"));
    assert!(!owns_attachment(
        &Arc::new(Mutex::new(None)),
        "T-REC",
        "S-REC"
    ));
}

#[test]
fn test_validate_fps_range() {
    assert_eq!(validate_fps(1).unwrap(), 1);
    assert_eq!(validate_fps(DEFAULT_FPS).unwrap(), 30);
    assert_eq!(validate_fps(MAX_FPS).unwrap(), 60);
    assert!(validate_fps(0).is_err());
    assert!(validate_fps(MAX_FPS + 1).is_err());
}

#[test]
fn test_build_ffmpeg_command_webm() {
    let cmd = build_ffmpeg_command("/tmp/out.webm", DEFAULT_FPS);
    let args_str: Vec<&str> = cmd.args.iter().map(String::as_str).collect();
    assert!(args_str.contains(&"libvpx"));
    assert!(args_str.contains(&"/tmp/out.webm"));
    assert!(args_str.contains(&"png"));
    assert!(args_str.contains(&"18"));
    assert!(args_str.contains(&"8000k"));
}

#[test]
fn test_build_ffmpeg_command_mp4() {
    let cmd = build_ffmpeg_command("/tmp/out.mp4", DEFAULT_FPS);
    let args_str: Vec<&str> = cmd.args.iter().map(String::as_str).collect();
    assert!(args_str.contains(&"libx264"));
    assert!(args_str.contains(&"/tmp/out.mp4"));
}

#[test]
fn test_build_ffmpeg_command_passes_framerate() {
    let cmd = build_ffmpeg_command("/tmp/out.webm", 60);
    let args: Vec<String> = cmd.args;
    let framerate = args
        .iter()
        .position(|a| a == "-framerate")
        .and_then(|i| args.get(i + 1))
        .map(String::as_str);
    assert_eq!(framerate, Some("60"));
    assert!(args.iter().any(|a| a == "8000k"));
    let threads = args
        .iter()
        .position(|a| a == "-threads")
        .and_then(|i| args.get(i + 1))
        .map(String::as_str);
    assert_eq!(threads, Some("2"));
}

#[test]
fn test_build_ffmpeg_command_single_thread_at_default_fps() {
    let cmd = build_ffmpeg_command("/tmp/out.mp4", DEFAULT_FPS);
    let args: Vec<String> = cmd.args;
    let threads = args
        .iter()
        .position(|a| a == "-threads")
        .and_then(|i| args.get(i + 1))
        .map(String::as_str);
    assert_eq!(threads, Some("1"));
}

#[test]
fn webm_command_is_complete() {
    let cmd = build_ffmpeg_command("/tmp/out.webm", 24);
    assert_eq!(cmd.program, "ffmpeg");
    assert_eq!(cmd.stdin, Stream::Piped);
    assert_eq!(cmd.stdout, Stream::Discarded);
    assert_eq!(cmd.stderr, Stream::Piped);
    assert!(cmd.kill_on_drop);
    assert_eq!(
        cmd.args,
        vec![
            "-y", "-loglevel", "error", "-avioflags", "direct", "-fpsprobesize", "0",
            "-probesize", "32", "-analyzeduration", "0", "-f", "image2pipe", "-c:v", "png",
            "-framerate", "24", "-i", "pipe:0", "-vf", "pad=ceil(iw/2)*2:ceil(ih/2)*2",
            "-c:v", "libvpx", "-crf", "18", "-b:v", "8000k", "-pix_fmt", "yuv420p",
            "-threads", "1", "/tmp/out.webm",
        ]
    );
}

#[test]
fn other_commands_use_h264() {
    for path in ["/tmp/out.mp4", "webm", "out.WEBM", ""] {
        let cmd = build_ffmpeg_command(path, 31);
        assert_eq!(
            cmd.args[21..].to_vec(),
            vec![
                "-c:v", "libx264", "-preset", "ultrafast", "-pix_fmt", "yuv420p", "-threads",
                "2", path,
            ]
        );
    }
    assert_eq!(build_ffmpeg_command(".webm", 30).args[22], "libvpx");
}

#[test]
fn refused_rates_are_named() {
    assert_eq!(
        validate_fps(0).unwrap_err(),
        "Invalid fps: 0 is out of range (valid range: 1-60)"
    );
    assert_eq!(
        validate_fps(u32::MAX).unwrap_err(),
        "Invalid fps: 4294967295 is out of range (valid range: 1-60)"
    );
}

#[test]
fn refused_start_changes_nothing() {
    let mut state = RecordingState::new();
    recording_start(&mut state, "/tmp/first.webm", Some(24)).unwrap();
    state.frame_count = 7;
    assert_eq!(
        recording_start(&mut state, "/tmp/second.webm", Some(0)).unwrap_err(),
        "Recording already active"
    );
    assert!(state.active);
    assert_eq!(state.output_path, "/tmp/first.webm");
    assert_eq!(state.fps, 24);
    assert_eq!(state.frame_count, 7);
}

#[test]
fn start_reply_is_complete() {
    let mut state = RecordingState::new();
    let reply = recording_start(&mut state, "/tmp/a.webm", Some(25)).unwrap();
    assert_eq!(
        reply.to_string(),
        r#"{"fps":25,"path":"/tmp/a.webm","started":true}"#
    );
}

#[test]
fn recording_is_reported_as_started() {
    let mut state = RecordingState::new();
    recording_start(&mut state, "/tmp/a.webm", Some(50)).unwrap();
    let settled = settle_recording_task(&mut state, TaskExit::Finished(Ok(())), Some(90), Some(12));
    assert_eq!(settled.result, Ok(()));
    let reply = recording_stop(&mut state).unwrap();
    assert_eq!(
        reply.to_string(),
        r#"{"capturedFrames":12,"fps":50,"frames":90,"path":"/tmp/a.webm"}"#
    );
    assert_eq!(
        recording_stop(&mut state).unwrap_err(),
        "No recording in progress"
    );
    recording_start(&mut state, "/tmp/b.webm", None).unwrap();
    assert_eq!(state.frame_count, 0);
    assert_eq!(state.captured_count, 0);
}

#[test]
fn task_exits_are_passed_on() {
    let mut state = RecordingState::new();
    state.frame_count = 3;
    state.captured_count = 2;
    let absent = settle_recording_task(&mut state, TaskExit::Absent, None, None);
    assert_eq!(absent.result, Ok(()));
    assert_eq!((state.frame_count, state.captured_count), (3, 2));
    let failed = TaskExit::Finished(Err("No frames captured".to_string()));
    assert_eq!(
        settle_recording_task(&mut state, failed, Some(0), Some(9)).result,
        Err("No frames captured".to_string())
    );
    assert_eq!((state.frame_count, state.captured_count), (0, 9));
    let panicked = TaskExit::Panicked("task 7 panicked".to_string());
    assert_eq!(
        settle_recording_task(&mut state, panicked, None, None).result,
        Err("Recording task panicked: task 7 panicked".to_string())
    );
}

#[test]
fn ended_task_owns_nothing() {
    let mut state = RecordingState::new();
    let mut slot = Some(CaptureSession {
        target_id: "T".to_string(),
        session_id: Some("S".to_string()),
    });
    let exit = TaskExit::Panicked("gone".to_string());
    settle_recording_task(&mut state, exit, None, None).update.apply(&mut slot);
    assert_eq!(slot, None);
}

#[test]
fn running_parts_are_taken_out() {
    let mut state = RecordingState::new();
    let (cancel, mut cancelled) = tokio::sync::oneshot::channel::<()>();
    state.cancel_tx = Some(cancel);
    state.shared_frame_count = Some(Arc::new(AtomicU64::new(5)));
    state.shared_captured_count = Some(Arc::new(AtomicU64::new(4)));
    let runtime = tokio::runtime::Builder::new_current_thread().build().unwrap();
    state.capture_task = Some(runtime.spawn(async { Err("stopped".to_string()) }));
    let running = take_running_task(&mut state);
    assert!(state.capture_task.is_none());
    assert!(state.cancel_tx.is_none());
    assert!(state.shared_frame_count.is_none());
    assert!(state.shared_captured_count.is_none());
    assert_eq!(running.frame_count.unwrap().load(Ordering::Relaxed), 5);
    assert_eq!(running.captured_count.unwrap().load(Ordering::Relaxed), 4);
    let result = runtime.block_on(running.task.unwrap()).unwrap();
    assert_eq!(result, Err("stopped".to_string()));
    running.cancel.unwrap().send(()).unwrap();
    assert!(cancelled.try_recv().is_ok());
}

#[test]
fn new_recorder_owns_nothing() {
    let state = RecordingState::new();
    assert_eq!(*state.capture_session.lock().unwrap(), None);
    assert!(!owns_attachment(&state.capture_session, "", ""));
    assert!(!slot_owns_attachment(&None, "", ""));
}

#[test]
fn poisoned_slot_owns_nothing() {
    let capture = CaptureSession {
        target_id: "T".to_string(),
        session_id: None,
    };
    assert!(SlotReading::Held(Some(capture)).owns_attachment("T", "S"));
    assert!(!SlotReading::Held(None).owns_attachment("T", "S"));
    assert!(!SlotReading::Poisoned.owns_attachment("T", "S"));

    let shared: SharedCaptureSession = Arc::new(Mutex::new(Some(CaptureSession {
        target_id: "T".to_string(),
        session_id: None,
    })));
    assert!(owns_attachment(&shared, "T", "S"));
    let holder = Arc::clone(&shared);
    let runtime = tokio::runtime::Builder::new_current_thread().build().unwrap();
    let task = runtime.spawn(async move {
        let _slot = holder.lock().unwrap();
        panic!("while the slot is held");
    });
    assert!(runtime.block_on(task).is_err());
    assert!(!owns_attachment(&shared, "T", "S"));
}
