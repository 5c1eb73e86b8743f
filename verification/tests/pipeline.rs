use recording::attach::{next_attach_step, AttachEvent, AttachStep, SlotUpdate};
use recording::collect::{
    frame_file, frame_payload, CaptureSignal, CapturedRecording, CapturedVideoFrame,
    FrameCollector, SignalOutcome,
};
use recording::encode::{EncodeEvent, EncodeStep, EncoderExit, Encoding};
use recording::ffmpeg::{exit_message, EncodeFailure};
use recording::schedule::PageCursor;
use recording::state::{settle_recording_task, TaskExit};
use recording::task::{RecordingTask, TaskEvent, TaskStep};
use recording::text::{
    decimal_text, ends_with_text, first_chars_text, same_text, zero_padded_text,
};
use recording::{recording_start, recording_stop, CaptureSession, RecordingState};
use serde_json::Value;

fn object(members: Vec<(&str, Value)>) -> Value {
    let mut map = serde_json::Map::new();
    for (key, value) in members {
        map.insert(key.to_string(), value);
    }
    Value::Object(map)
}

fn capture(times: &[u128]) -> CapturedRecording {
    let frames = times
        .iter()
        .enumerate()
        .map(|(i, time)| CapturedVideoFrame {
            file_name: frame_file(i),
            elapsed_nanos: *time,
        })
        .collect();
    CapturedRecording { frames, duration_nanos: 1000 }
}

#[test]
fn numbers_are_written_in_decimal() {
    assert_eq!(decimal_text(0), "0");
    assert_eq!(decimal_text(9), "9");
    assert_eq!(decimal_text(10), "10");
    assert_eq!(decimal_text(1234567890), "1234567890");
    assert_eq!(decimal_text(u64::MAX), "18446744073709551615");
    assert_eq!(zero_padded_text(42, 0), "42");
    assert_eq!(zero_padded_text(42, 2), "42");
    assert_eq!(zero_padded_text(42, 5), "00042");
}

#[test]
fn texts_are_compared_by_character() {
    assert!(same_text("", ""));
    assert!(same_text("h\u{e9}llo", "h\u{e9}llo"));
    assert!(!same_text("abc", "abd"));
    assert!(!same_text("abc", "ab"));
    assert!(ends_with_text("a.webm", ".webm"));
    assert!(ends_with_text("\u{1f600}.webm", ".webm"));
    assert!(ends_with_text("x", ""));
    assert!(!ends_with_text("webm", ".webm"));
    assert!(!ends_with_text("a.webm.mp4", ".webm"));
    assert_eq!(first_chars_text("\u{e9}t\u{e9}", 2), "\u{e9}t");
    assert_eq!(first_chars_text("ab", 2), "ab");
    assert_eq!(first_chars_text("ab", 9), "ab");
}

#[test]
fn frame_files_are_numbered() {
    assert_eq!(frame_file(0), "frame-00000000.png");
    assert_eq!(frame_file(12345678), "frame-12345678.png");
    assert_eq!(frame_file(123456789), "frame-123456789.png");
}

#[test]
fn payloads_are_decoded() {
    let params = object(vec![("data", Value::from("aGVsbG8="))]);
    assert_eq!(frame_payload(&params), Some(b"hello".to_vec()));
    let padless = object(vec![("data", Value::from("aGVsbG8"))]);
    assert_eq!(frame_payload(&padless), None);
    let number = object(vec![("data", Value::from(5))]);
    assert_eq!(frame_payload(&number), None);
    assert_eq!(frame_payload(&object(vec![])), None);
    assert_eq!(frame_payload(&Value::Null), None);
}

#[test]
fn frames_are_acknowledged_and_spooled() {
    let mut collector = FrameCollector::new("S-REC");
    assert_eq!(collector.captured(), 0);
    let params = object(vec![
        ("data", Value::from("aGk=")),
        ("sessionId", Value::from(-3)),
    ]);
    let plan = collector.observe(CaptureSignal::Event {
        method: "Page.screencastFrame",
        params: &params,
    });
    let ack = plan.acknowledgement.unwrap();
    assert_eq!(ack.method, "Page.screencastFrameAck");
    assert_eq!(ack.params.unwrap().to_string(), r#"{"sessionId":-3}"#);
    assert_eq!(ack.session.as_deref(), Some("S-REC"));
    match plan.outcome {
        SignalOutcome::Spool { file_name, bytes } => {
            assert_eq!(file_name, "frame-00000000.png");
            assert_eq!(bytes, b"hi".to_vec());
        }
        _ => panic!("the frame was not spooled"),
    }
    assert_eq!(collector.spooled(Ok(()), 11), Ok(()));
    assert_eq!(collector.captured(), 1);
    let next = collector.observe(CaptureSignal::Event {
        method: "Page.screencastFrame",
        params: &params,
    });
    match next.outcome {
        SignalOutcome::Spool { file_name, .. } => assert_eq!(file_name, "frame-00000001.png"),
        _ => panic!("the frame was not spooled"),
    }
    assert_eq!(
        collector.spooled(Err("disk full".to_string()), 12),
        Err("Failed to spool recording frame: disk full".to_string())
    );
    assert_eq!(collector.captured(), 1);
    assert_eq!(collector.spooled(Ok(()), 13), Ok(()));
    let captured = collector.captured();
    let recording = collector.finish(99).unwrap();
    assert_eq!(recording.duration_nanos, 99);
    assert_eq!(recording.frames.len(), 2);
    assert_eq!(captured, 2);
    let mut state = RecordingState::new();
    recording_start(&mut state, "/tmp/kept.webm", None).unwrap();
    let _ = settle_recording_task(&mut state, TaskExit::Finished(Ok(())), Some(5), Some(captured));
    assert_eq!(recording_stop(&mut state).unwrap()["capturedFrames"], 2);
    assert_eq!(recording.frames[0].file_name, "frame-00000000.png");
    assert_eq!(recording.frames[0].elapsed_nanos, 11);
    assert_eq!(recording.frames[1].file_name, "frame-00000001.png");
    assert_eq!(recording.frames[1].elapsed_nanos, 13);
}

#[test]
fn captures_keep_every_image_before_their_end() {
    let frame = |data: &str| object(vec![("data", Value::from(data))]);
    let events = vec![
        ("Page.screencastFrame", frame("YQ==")),
        ("Page.screencastFrame", frame("not base64")),
        ("Page.frameNavigated", frame("Yg==")),
        ("Page.screencastFrame", frame("Yw==")),
        ("Inspector.detached", Value::Null),
        ("Page.screencastFrame", frame("ZA==")),
    ];
    let mut collector = FrameCollector::new("S");
    let mut files = Vec::new();
    let mut time = 0;
    for (method, params) in &events {
        time += 10;
        match collector.observe(CaptureSignal::Event { method, params }).outcome {
            SignalOutcome::Continue => {}
            SignalOutcome::Spool { file_name, bytes } => {
                files.push((file_name, bytes));
                collector.spooled(Ok(()), time).unwrap();
            }
            SignalOutcome::Finish => break,
        }
    }
    assert_eq!(
        files,
        vec![
            ("frame-00000000.png".to_string(), b"a".to_vec()),
            ("frame-00000001.png".to_string(), b"c".to_vec()),
        ]
    );
    let recording = collector.finish(time).unwrap();
    let kept: Vec<(String, u128)> = recording
        .frames
        .into_iter()
        .map(|frame| (frame.file_name, frame.elapsed_nanos))
        .collect();
    assert_eq!(
        kept,
        vec![
            ("frame-00000000.png".to_string(), 10),
            ("frame-00000001.png".to_string(), 40),
        ]
    );
    assert_eq!(recording.duration_nanos, 50);
}

#[test]
fn frames_without_an_image_are_still_acknowledged() {
    let collector = FrameCollector::new("S");
    let params = object(vec![("sessionId", Value::from(8))]);
    let plan = collector.observe(CaptureSignal::Event {
        method: "Page.screencastFrame",
        params: &params,
    });
    assert!(plan.acknowledgement.is_some());
    assert!(matches!(plan.outcome, SignalOutcome::Continue));
    let large = object(vec![("sessionId", Value::from(u64::MAX))]);
    let plan = collector.plan_event("Page.screencastFrame", &large, Some(vec![1]));
    assert!(plan.acknowledgement.is_none());
    assert!(matches!(plan.outcome, SignalOutcome::Spool { .. }));
}

#[test]
fn captures_end_on_a_signal() {
    let collector = FrameCollector::new("S");
    let none = Value::Null;
    let closed = collector.observe(CaptureSignal::Event {
        method: "Inspector.detached",
        params: &none,
    });
    assert!(matches!(closed.outcome, SignalOutcome::Finish));
    assert!(matches!(
        collector.observe(CaptureSignal::Cancelled).outcome,
        SignalOutcome::Finish
    ));
    assert!(matches!(
        collector.observe(CaptureSignal::Closed).outcome,
        SignalOutcome::Finish
    ));
    let other = collector.observe(CaptureSignal::Event {
        method: "Page.frameNavigated",
        params: &none,
    });
    assert!(matches!(other.outcome, SignalOutcome::Continue));
    assert_eq!(collector.finish(5).unwrap_err(), "No frames captured");
}

#[test]
fn frames_are_held_through_gaps() {
    let recording = capture(&[100, 200, 200, 900]);
    let mut cursor = PageCursor::new();
    let mut shown = Vec::new();
    let mut loads = Vec::new();
    for time in [0, 150, 200, 400, 899, 900, 5000] {
        if let Some(page) = cursor.turn(&recording, time) {
            loads.push(page);
        }
        shown.push(cursor.current());
    }
    assert_eq!(shown, vec![0, 0, 2, 2, 2, 3, 3]);
    assert_eq!(loads, vec![0, 2, 3]);
}

#[test]
fn encoding_feeds_every_slot() {
    let mut encoding = Encoding::new(capture(&[0, 10]), "/tmp/o.webm", 30, 3);
    let times = [0u128, 9, 18];
    let mut fed = Vec::new();
    let mut read = Vec::new();
    let mut event = EncodeEvent::Begun;
    let result = loop {
        event = match encoding.next(event) {
            EncodeStep::Launch { command } => {
                assert_eq!(command.program, "ffmpeg");
                assert_eq!(command.args[16], "30");
                EncodeEvent::Launched(Ok(()))
            }
            EncodeStep::TakeStdin => EncodeEvent::StdinTaken(true),
            EncodeStep::Time { slot } => {
                assert_eq!(slot as usize, fed.len());
                EncodeEvent::Timed(times[slot as usize])
            }
            EncodeStep::Load { page, file_name } => {
                assert_eq!(file_name, frame_file(page));
                read.push(page);
                EncodeEvent::Loaded(Ok(()))
            }
            EncodeStep::Write { page } => {
                fed.push(page);
                EncodeEvent::Written(Ok(()))
            }
            EncodeStep::Close => EncodeEvent::Exited(Ok(EncoderExit {
                success: true,
                stderr: vec![],
            })),
            EncodeStep::Done { result } => break result,
        };
    };
    assert_eq!(result, Ok(3));
    assert_eq!(fed, vec![0, 0, 1]);
    assert_eq!(read, vec![0, 1]);
}

#[test]
fn videos_have_a_frame() {
    let mut encoding = Encoding::new(capture(&[0]), "/tmp/o.mp4", 30, 0);
    assert!(matches!(
        encoding.next(EncodeEvent::StdinTaken(true)),
        EncodeStep::Time { slot: 0 }
    ));
    assert!(matches!(
        encoding.next(EncodeEvent::Timed(0)),
        EncodeStep::Load { page: 0, .. }
    ));
    assert!(matches!(
        encoding.next(EncodeEvent::Written(Ok(()))),
        EncodeStep::Close
    ));
    let exit = EncoderExit { success: true, stderr: vec![] };
    assert!(matches!(
        encoding.next(EncodeEvent::Exited(Ok(exit))),
        EncodeStep::Done { result: Ok(1) }
    ));
}

fn failure_of(event: EncodeEvent) -> String {
    let mut encoding = Encoding::new(capture(&[0]), "/tmp/o.mp4", 30, 1);
    match encoding.next(event) {
        EncodeStep::Done { result } => result.unwrap_err(),
        _ => panic!("the encoding went on"),
    }
}

#[test]
fn encoding_failures_are_reported() {
    let cause = || "broken".to_string();
    assert_eq!(
        failure_of(EncodeEvent::Launched(Err(cause()))),
        "ffmpeg not found or failed to execute: broken. Install ffmpeg to enable recording."
    );
    assert_eq!(failure_of(EncodeEvent::StdinTaken(false)), "Failed to open ffmpeg stdin");
    assert_eq!(
        failure_of(EncodeEvent::Loaded(Err(cause()))),
        "Failed to read recording frame: broken"
    );
    assert_eq!(failure_of(EncodeEvent::Written(Err(cause()))), "ffmpeg write failed: broken");
    assert_eq!(failure_of(EncodeEvent::Exited(Err(cause()))), "ffmpeg wait failed: broken");
    let exit = EncoderExit { success: false, stderr: b"no such codec".to_vec() };
    assert_eq!(failure_of(EncodeEvent::Exited(Ok(exit))), "ffmpeg failed: no such codec");
}

#[test]
fn encoder_output_is_cut_and_repaired() {
    let long = "\u{e9}".repeat(301);
    assert_eq!(exit_message(&long), format!("ffmpeg failed: {}", "\u{e9}".repeat(300)));
    assert_eq!(
        EncodeFailure::Exit(vec![b'a', 0xff, b'b']).message(),
        "ffmpeg failed: a\u{fffd}b"
    );
}

fn target_info(target: &str) -> Value {
    object(vec![("targetInfo", object(vec![("targetId", Value::from(target))]))])
}

#[test]
fn attachment_is_published_before_it_is_asked_for() {
    let requested = AttachEvent::Requested { page_session_id: "S-PAGE".to_string() };
    match next_attach_step(requested) {
        AttachStep::Query { command } => {
            assert_eq!(command.method, "Target.getTargetInfo");
            assert!(command.params.is_none());
            assert_eq!(command.session.as_deref(), Some("S-PAGE"));
        }
        _ => panic!("the target was not asked for"),
    }
    let mut slot: Option<CaptureSession> = None;
    match next_attach_step(AttachEvent::TargetInfo(Ok(target_info("T-REC")))) {
        AttachStep::Attach { update, request } => {
            update.apply(&mut slot);
            assert_eq!(request.method, "Target.attachToTarget");
            assert_eq!(request.target_id, "T-REC");
            assert!(request.flatten);
            assert!(request.session.is_none());
        }
        _ => panic!("the attachment was not asked for"),
    }
    assert!(slot.as_ref().unwrap().owns_attachment("T-REC", "S-ANY"));
    assert!(!slot.as_ref().unwrap().owns_attachment("T-OTHER", "S-ANY"));
    match next_attach_step(AttachEvent::Attached(Ok("S-REC".to_string()))) {
        AttachStep::Done { update, result } => {
            update.apply(&mut slot);
            assert_eq!(result, Ok("S-REC".to_string()));
        }
        _ => panic!("the attachment was not over"),
    }
    assert_eq!(
        slot,
        Some(CaptureSession {
            target_id: "T-REC".to_string(),
            session_id: Some("S-REC".to_string()),
        })
    );
    assert!(slot.as_ref().unwrap().owns_attachment("T-OTHER", "S-REC"));
    assert!(!slot.as_ref().unwrap().owns_attachment("T-REC", "S-OTHER"));
}

fn attach_failure(event: AttachEvent, slot: &mut Option<CaptureSession>) -> String {
    match next_attach_step(event) {
        AttachStep::Done { update, result } => {
            update.apply(slot);
            result.unwrap_err()
        }
        _ => panic!("the attachment went on"),
    }
}

#[test]
fn attachment_failures_are_reported() {
    let mut slot: Option<CaptureSession> = None;
    SlotUpdate::Publish("T".to_string()).apply(&mut slot);
    let refused = AttachEvent::TargetInfo(Err("no session".to_string()));
    assert_eq!(attach_failure(refused, &mut slot), "no session");
    assert!(slot.is_some());
    for info in [
        Value::Null,
        object(vec![]),
        object(vec![("targetInfo", Value::from("T"))]),
        object(vec![("targetInfo", object(vec![("targetId", Value::from(1))]))]),
    ] {
        let unresolved = AttachEvent::TargetInfo(Ok(info));
        assert_eq!(
            attach_failure(unresolved, &mut slot),
            "Failed to resolve recording target"
        );
        assert!(slot.is_some());
    }
    let failed = AttachEvent::Attached(Err("gone".to_string()));
    assert_eq!(
        attach_failure(failed, &mut slot),
        "Failed to attach recording session: gone"
    );
    assert_eq!(slot, None);
    SlotUpdate::Confirm("S".to_string()).apply(&mut slot);
    assert_eq!(slot, None);
}

fn task(fps: u32) -> RecordingTask {
    RecordingTask {
        capture_session: "S-REC".to_string(),
        output_path: "/tmp/take.webm".to_string(),
        fps,
    }
}

/// Runs a task and returns the names of its steps and its result.
fn run_task(
    task: &RecordingTask,
    prepared: Result<(), String>,
    started: Result<(), String>,
    collected: Result<CapturedRecording, String>,
    encoded: Result<u64, String>,
) -> (Vec<String>, Result<(), String>) {
    let mut collected = Some(collected);
    let mut steps = Vec::new();
    let mut event = TaskEvent::Spawned;
    loop {
        event = match task.next_step(event) {
            TaskStep::Prepare { session } => {
                assert_eq!(session, "S-REC");
                steps.push("prepare".to_string());
                TaskEvent::Prepared(prepared.clone())
            }
            TaskStep::Start { command } => {
                assert_eq!(
                    command.params.unwrap().to_string(),
                    r#"{"everyNthFrame":1,"format":"png"}"#
                );
                assert_eq!(command.session.as_deref(), Some("S-REC"));
                steps.push(command.method);
                TaskEvent::Started(started.clone())
            }
            TaskStep::Collect { session } => {
                assert_eq!(session, "S-REC");
                steps.push("collect".to_string());
                TaskEvent::Collected(collected.take().unwrap())
            }
            TaskStep::Unsubscribe { session, capture } => {
                assert_eq!(session, "S-REC");
                steps.push("unsubscribe".to_string());
                TaskEvent::Unsubscribed { capture }
            }
            TaskStep::StopScreencast { command, limit_secs, capture } => {
                assert_eq!(limit_secs, 2);
                assert!(command.params.is_none());
                assert_eq!(command.session.as_deref(), Some("S-REC"));
                steps.push(command.method);
                TaskEvent::ScreencastStopped { capture }
            }
            TaskStep::Detach { command, limit_secs, capture } => {
                assert_eq!(limit_secs, 2);
                assert_eq!(command.params.unwrap().to_string(), r#"{"sessionId":"S-REC"}"#);
                assert!(command.session.is_none());
                steps.push(command.method);
                TaskEvent::Detached { capture }
            }
            TaskStep::Encode { recording, output_path, fps } => {
                assert_eq!(recording.duration_nanos, 1000);
                assert_eq!(output_path, "/tmp/take.webm");
                assert_eq!(fps, task.fps);
                steps.push("encode".to_string());
                TaskEvent::Encoded(encoded.clone())
            }
            TaskStep::Publish { written } => {
                steps.push(format!("publish {}", written));
                TaskEvent::Published
            }
            TaskStep::Done { result } => return (steps, result),
        };
    }
}

#[test]
fn successful_task_publishes_its_frames() {
    let (steps, result) = run_task(&task(30), Ok(()), Ok(()), Ok(capture(&[0])), Ok(17));
    assert_eq!(result, Ok(()));
    assert_eq!(
        steps,
        vec![
            "prepare", "Page.startScreencast", "collect", "unsubscribe", "Page.stopScreencast",
            "Target.detachFromTarget", "encode", "publish 17",
        ]
    );
}

#[test]
fn screencast_is_torn_down_on_failure() {
    let refused = Err("not attached".to_string());
    let (steps, result) = run_task(&task(30), Ok(()), refused, Ok(capture(&[0])), Ok(1));
    assert_eq!(result, Err("Failed to start screencast: not attached".to_string()));
    assert_eq!(
        steps,
        vec![
            "prepare", "Page.startScreencast", "unsubscribe", "Page.stopScreencast",
            "Target.detachFromTarget",
        ]
    );
    let empty = Err("No frames captured".to_string());
    let (steps, result) = run_task(&task(30), Ok(()), Ok(()), empty, Ok(1));
    assert_eq!(result, Err("No frames captured".to_string()));
    assert_eq!(steps.last().unwrap(), "Target.detachFromTarget");
    let broken = Err("ffmpeg failed: x".to_string());
    let (steps, result) = run_task(&task(30), Ok(()), Ok(()), Ok(capture(&[0])), broken);
    assert_eq!(result, Err("ffmpeg failed: x".to_string()));
    assert_eq!(steps.last().unwrap(), "encode");
}

#[test]
fn task_without_a_directory_or_a_rate_records_nothing() {
    let full = Err("disk full".to_string());
    let (steps, result) = run_task(&task(30), full, Ok(()), Ok(capture(&[0])), Ok(1));
    assert_eq!(
        result,
        Err("Failed to create recording frame directory: disk full".to_string())
    );
    assert_eq!(steps, vec!["prepare"]);
    let (steps, result) = run_task(&task(61), Ok(()), Ok(()), Ok(capture(&[0])), Ok(1));
    assert_eq!(
        result,
        Err("Invalid fps: 61 is out of range (valid range: 1-60)".to_string())
    );
    assert!(steps.is_empty());
}
