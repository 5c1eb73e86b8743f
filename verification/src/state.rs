//! The state of the recorder, and the start and the stop of a recording.

use crate::attach::SlotUpdate;
use crate::collect::{
    a_capture_keeps_every_image, finishes, CapturedRecording, CaptureRun,
};
use crate::json::{
    bool_value, insert_member, json_of, no_members, object_value, text_value, unsigned_value, Json,
};
use crate::session::{empty_slot, made_with, slot_owns, CaptureSession, SharedCaptureSession};
use crate::text::{decimal, decimal_text, joined};
use serde_json::Value;
use std::sync::atomic::AtomicU64;
use std::sync::Arc;
use tokio::sync::oneshot;
use tokio::task::JoinHandle;
use vstd::prelude::*;

verus! {

/// Capture rate used when the caller does not ask for one. 30 fps reads as
/// smooth motion, so scrolls, hovers, and CSS transitions survive the
/// recording instead of turning into a slideshow.
pub const DEFAULT_FPS: u32 = 30;

/// Highest capture rate the recorder accepts. 60 fps is worth asking for on
/// short, motion-heavy clips (drag interactions, animation, scroll polish
/// work) where the extra temporal detail is the point.
pub const MAX_FPS: u32 = 60;

/// The capture rates that the pipeline can honor.
pub open spec fn valid_fps(fps: u32) -> bool {
    1 <= fps <= MAX_FPS
}

/// The report on a capture rate that the pipeline cannot honor.
pub open spec fn invalid_fps_report(fps: u32) -> Seq<char> {
    "Invalid fps: "@ + decimal(fps as nat) + " is out of range (valid range: 1-"@ + decimal(
        MAX_FPS as nat,
    ) + ")"@
}

/// A rate that can be honored is accepted as it is, and any other is reported.
pub open spec fn validates(fps: u32, result: Result<u32, String>) -> bool {
    match result {
        Ok(accepted) => valid_fps(fps) && accepted == fps,
        Err(message) => !valid_fps(fps) && message@ == invalid_fps_report(fps),
    }
}

/// Reject frame rates the pipeline cannot honor.
pub fn validate_fps(fps: u32) -> (result: Result<u32, String>)
    ensures
        match result {
            Ok(accepted) => valid_fps(fps) && accepted == fps,
            Err(message) => !valid_fps(fps) && message@ == invalid_fps_report(fps),
        },
        validates(fps, result),
{
    if fps == 0 || fps > MAX_FPS {
        let asked = decimal_text(fps as u64);
        let highest = decimal_text(MAX_FPS as u64);
        let mut message = joined("Invalid fps: ", asked.as_str());
        message.append(" is out of range (valid range: 1-");
        message.append(highest.as_str());
        message.append(")");
        return Err(message);
    }
    Ok(fps)
}

/// The handle of a task that runs on its own, which is carried through.
#[verifier::external_type_specification]
#[verifier::external_body]
#[verifier::reject_recursive_types(T)]
pub struct ExJoinHandle<T>(tokio::task::JoinHandle<T>);

/// Why a task's own result is not there. It is part of what a task's handle
/// gives, and is carried through.
#[verifier::external_type_specification]
#[verifier::external_body]
pub struct ExJoinError(tokio::task::JoinError);

/// The sending end of a channel for one message, which is carried through.
#[verifier::external_type_specification]
#[verifier::external_body]
#[verifier::reject_recursive_types(T)]
pub struct ExSender<T>(tokio::sync::oneshot::Sender<T>);

pub struct RecordingState {
    pub active: bool,
    pub output_path: String,
    /// Capture rate for the active (or most recent) recording.
    pub fps: u32,
    /// Frames written to the file, including frames held through gaps.
    pub frame_count: u64,
    /// Distinct frames received from the screencast.
    pub captured_count: u64,
    pub capture_task: Option<JoinHandle<Result<(), String>>>,
    pub shared_frame_count: Option<Arc<AtomicU64>>,
    pub shared_captured_count: Option<Arc<AtomicU64>>,
    pub cancel_tx: Option<oneshot::Sender<()>>,
    /// Shared with the daemon's event handlers.
    pub capture_session: SharedCaptureSession,
}

impl RecordingState {
    /// A recorder that has recorded nothing.
    pub open spec fn is_new(self) -> bool {
        &&& !self.active
        &&& self.output_path@ == Seq::<char>::empty()
        &&& self.fps == DEFAULT_FPS
        &&& self.frame_count == 0
        &&& self.captured_count == 0
        &&& self.capture_task is None
        &&& self.shared_frame_count is None
        &&& self.shared_captured_count is None
        &&& self.cancel_tx is None
        &&& made_with(*self.capture_session) is None
    }

    /// The capture rate is one that the pipeline can honor.
    pub open spec fn wf(self) -> bool {
        valid_fps(self.fps)
    }

    pub fn new() -> (state: RecordingState)
        ensures
            state.is_new(),
            state.wf(),
    {
        RecordingState {
            active: false,
            output_path: String::new(),
            fps: DEFAULT_FPS,
            frame_count: 0,
            captured_count: 0,
            capture_task: None,
            shared_frame_count: None,
            shared_captured_count: None,
            cancel_tx: None,
            capture_session: empty_slot(),
        }
    }
}

/// The running parts of the recorder are the same in both states.
pub open spec fn same_handles(before: RecordingState, after: RecordingState) -> bool {
    &&& after.capture_task == before.capture_task
    &&& after.shared_frame_count == before.shared_frame_count
    &&& after.shared_captured_count == before.shared_captured_count
    &&& after.cancel_tx == before.cancel_tx
    &&& after.capture_session == before.capture_session
}

/// The recording itself is the same in both states, whatever its running parts.
pub open spec fn same_recording(before: RecordingState, after: RecordingState) -> bool {
    &&& after.active == before.active
    &&& after.output_path@ == before.output_path@
    &&& after.fps == before.fps
    &&& after.frame_count == before.frame_count
    &&& after.captured_count == before.captured_count
}

/// The result is the error with this text.
pub open spec fn refuses<T>(result: Result<T, String>, report: Seq<char>) -> bool {
    result matches Err(message) && message@ == report
}

/// The capture rate that a request asks for.
pub open spec fn requested_fps(fps: Option<u32>) -> u32 {
    match fps {
        Some(asked) => asked,
        None => DEFAULT_FPS,
    }
}

/// The reply to a start.
pub open spec fn start_reply(path: Seq<char>, fps: u32) -> Json {
    Json::Object(
        map![
            "started"@ => Json::Bool(true),
            "path"@ => Json::Text(path),
            "fps"@ => Json::Integer(fps as int),
        ],
    )
}

/// The reply to a stop.
pub open spec fn stop_reply(path: Seq<char>, frames: u64, captured: u64, fps: u32) -> Json {
    Json::Object(
        map![
            "path"@ => Json::Text(path),
            "frames"@ => Json::Integer(frames as int),
            "capturedFrames"@ => Json::Integer(captured as int),
            "fps"@ => Json::Integer(fps as int),
        ],
    )
}

/// What comes of a request to start: it is refused while a recording is active,
/// and with a rate that the pipeline cannot honor. A request that is granted
/// begins a recording with nothing counted.
pub open spec fn starts(
    before: RecordingState,
    path: Seq<char>,
    fps: Option<u32>,
    after: RecordingState,
    result: Result<Value, String>,
) -> bool {
    let rate = requested_fps(fps);
    if before.active {
        after == before && refuses(result, "Recording already active"@)
    } else if !valid_fps(rate) {
        after == before && refuses(result, invalid_fps_report(rate))
    } else {
        &&& result matches Ok(reply)
        &&& json_of(reply) == start_reply(path, rate)
        &&& after.active
        &&& after.output_path@ == path
        &&& after.fps == rate
        &&& after.frame_count == 0
        &&& after.captured_count == 0
        &&& same_handles(before, after)
    }
}

/// What comes of a request to stop: it is refused while no recording is active.
/// Otherwise the recording is over, and is reported unless it has no frame.
pub open spec fn stops(
    before: RecordingState,
    after: RecordingState,
    result: Result<Value, String>,
) -> bool {
    if !before.active {
        after == before && refuses(result, "No recording in progress"@)
    } else {
        &&& after == (RecordingState { active: false, ..before })
        &&& if before.frame_count == 0 {
            refuses(result, "No frames captured"@)
        } else {
            &&& result matches Ok(reply)
            &&& json_of(reply) == stop_reply(
                before.output_path@,
                before.frame_count,
                before.captured_count,
                before.fps,
            )
        }
    }
}

/// Starts a recording to `path`, at the default rate where none is asked for.
pub fn recording_start(state: &mut RecordingState, path: &str, fps: Option<u32>) -> (result: Result<
    Value,
    String,
>)
    ensures
        starts(*old(state), path@, fps, *final(state), result),
        old(state).wf() ==> final(state).wf(),
{
    if state.active {
        return Err("Recording already active".to_owned());
    }
    let asked: u32 = match fps {
        Some(asked) => asked,
        None => DEFAULT_FPS,
    };
    let rate: u32 = match validate_fps(asked) {
        Ok(accepted) => accepted,
        Err(message) => return Err(message),
    };
    state.active = true;
    state.output_path = path.to_owned();
    state.fps = rate;
    state.frame_count = 0;
    state.captured_count = 0;
    let mut members = no_members();
    insert_member(&mut members, "started", bool_value(true));
    insert_member(&mut members, "path", text_value(path));
    insert_member(&mut members, "fps", unsigned_value(rate as u64));
    Ok(object_value(members))
}

/// Stops the active recording and reports it.
pub fn recording_stop(state: &mut RecordingState) -> (result: Result<Value, String>)
    ensures
        stops(*old(state), *final(state), result),
        old(state).wf() ==> final(state).wf(),
{
    if !state.active {
        return Err("No recording in progress".to_owned());
    }
    state.active = false;
    if state.frame_count == 0 {
        return Err("No frames captured".to_owned());
    }
    let mut members = no_members();
    insert_member(&mut members, "path", text_value(state.output_path.as_str()));
    insert_member(&mut members, "frames", unsigned_value(state.frame_count));
    insert_member(&mut members, "capturedFrames", unsigned_value(state.captured_count));
    insert_member(&mut members, "fps", unsigned_value(state.fps as u64));
    Ok(object_value(members))
}

/// The running parts of a recording.
pub struct RunningTask {
    pub cancel: Option<oneshot::Sender<()>>,
    pub frame_count: Option<Arc<AtomicU64>>,
    pub captured_count: Option<Arc<AtomicU64>>,
    pub task: Option<JoinHandle<Result<(), String>>>,
}

/// The running parts are handed over, and are no longer in the recorder.
pub open spec fn hands_over(
    before: RecordingState,
    after: RecordingState,
    running: RunningTask,
) -> bool {
    &&& running.cancel == before.cancel_tx
    &&& running.frame_count == before.shared_frame_count
    &&& running.captured_count == before.shared_captured_count
    &&& running.task == before.capture_task
    &&& after == (RecordingState {
        cancel_tx: None,
        shared_frame_count: None,
        shared_captured_count: None,
        capture_task: None,
        ..before
    })
}

/// Takes the running parts out of the recorder, to end them.
pub fn take_running_task(state: &mut RecordingState) -> (running: RunningTask)
    ensures
        running.cancel == old(state).cancel_tx,
        running.frame_count == old(state).shared_frame_count,
        running.captured_count == old(state).shared_captured_count,
        running.task == old(state).capture_task,
        *final(state) == (RecordingState {
            cancel_tx: None,
            shared_frame_count: None,
            shared_captured_count: None,
            capture_task: None,
            ..*old(state)
        }),
        hands_over(*old(state), *final(state), running),
{
    RunningTask {
        cancel: state.cancel_tx.take(),
        frame_count: state.shared_frame_count.take(),
        captured_count: state.shared_captured_count.take(),
        task: state.capture_task.take(),
    }
}

/// How the capture task ended.
pub enum TaskExit {
    /// There was none.
    Absent,
    /// With a result of its own.
    Finished(Result<(), String>),
    /// Without one, for this reason.
    Panicked(String),
}

/// The result of a task is passed on, and a task without one is reported.
pub open spec fn exit_result(exit: TaskExit, result: Result<(), String>) -> bool {
    match exit {
        TaskExit::Absent => result is Ok,
        TaskExit::Finished(own) => result == own,
        TaskExit::Panicked(cause) => refuses(result, "Recording task panicked: "@ + cause@),
    }
}

/// What is left of a task that ended: its counts, where it kept any, whether it
/// succeeded or not.
pub open spec fn settles(
    before: RecordingState,
    frames: Option<u64>,
    captured: Option<u64>,
    after: RecordingState,
) -> bool {
    after == (RecordingState {
        frame_count: match frames {
            Some(count) => count,
            None => before.frame_count,
        },
        captured_count: match captured {
            Some(count) => count,
            None => before.captured_count,
        },
        ..before
    })
}

/// What is left to do about a task that ended.
pub struct Settlement {
    /// The change of the shared slot.
    pub update: SlotUpdate,
    pub result: Result<(), String>,
}

/// What comes of the end of the capture task: its counts and its result are
/// kept, and its session is gone.
pub open spec fn ends(
    before: RecordingState,
    exit: TaskExit,
    frames: Option<u64>,
    captured: Option<u64>,
    after: RecordingState,
    settlement: Settlement,
) -> bool {
    &&& settlement.update is Clear
    &&& exit_result(exit, settlement.result)
    &&& settles(before, frames, captured, after)
}

/// Takes note of the end of the capture task and of what its counters say. The
/// capture session went with the task.
pub fn settle_recording_task(
    state: &mut RecordingState,
    exit: TaskExit,
    frames: Option<u64>,
    captured: Option<u64>,
) -> (settlement: Settlement)
    ensures
        settlement.update is Clear,
        exit_result(exit, settlement.result),
        settles(*old(state), frames, captured, *final(state)),
        ends(*old(state), exit, frames, captured, *final(state), settlement),
{
    if let Some(count) = frames {
        state.frame_count = count;
    }
    if let Some(count) = captured {
        state.captured_count = count;
    }
    let result = match exit {
        TaskExit::Absent => Ok(()),
        TaskExit::Finished(own) => own,
        TaskExit::Panicked(cause) => Err(joined("Recording task panicked: ", cause.as_str())),
    };
    Settlement { update: SlotUpdate::Clear, result }
}

/// A request to start that is refused changes nothing, and one that is granted
/// makes the next one be refused.
pub proof fn a_recording_is_started_once(
    before: RecordingState,
    path: Seq<char>,
    fps: Option<u32>,
    after: RecordingState,
    result: Result<Value, String>,
    next_path: Seq<char>,
    next_fps: Option<u32>,
    next: RecordingState,
    next_result: Result<Value, String>,
)
    requires
        starts(before, path, fps, after, result),
        starts(after, next_path, next_fps, next, next_result),
    ensures
        result is Err ==> after == before,
        result is Ok ==> next == after && refuses(next_result, "Recording already active"@),
{
}

/// A recording is reported under the path and the rate that it was started
/// with, and with the counts of its task; without a frame it is an error.
pub proof fn a_recording_is_reported_as_started(
    before: RecordingState,
    path: Seq<char>,
    fps: Option<u32>,
    started: RecordingState,
    start: Result<Value, String>,
    running: RecordingState,
    frames: u64,
    captured: u64,
    settled: RecordingState,
    stopped: RecordingState,
    stop: Result<Value, String>,
)
    requires
        starts(before, path, fps, started, start),
        start is Ok,
        same_recording(started, running),
        settles(running, Some(frames), Some(captured), settled),
        stops(settled, stopped, stop),
    ensures
        !stopped.active,
        frames == 0 ==> refuses(stop, "No frames captured"@),
        frames > 0 ==> (stop matches Ok(reply) && json_of(reply) == stop_reply(
            path,
            frames,
            captured,
            requested_fps(fps),
        )),
{
}

/// The count of captured frames that is reported is the number of frames that
/// the capture has kept, where the task has counted one for every frame that was
/// written.
pub proof fn the_frames_kept_are_reported(
    run: CaptureRun,
    duration_nanos: u128,
    capture: CapturedRecording,
    captured: u64,
    running: RecordingState,
    frames: u64,
    settled: RecordingState,
    stopped: RecordingState,
    stop: Result<Value, String>,
)
    requires
        run.is_run(),
        finishes(run.collectors[run.signals.len() as int], duration_nanos, Ok(capture)),
        captured == run.files(run.signals.len() as int).len(),
        settles(running, Some(frames), Some(captured), settled),
        stops(settled, stopped, stop),
        stop is Ok,
    ensures
        settled.captured_count == capture.frames@.len(),
        json_of(stop->Ok_0).member("capturedFrames"@) == Some(
            Json::Integer(capture.frames@.len() as int),
        ),
{
    a_capture_keeps_every_image(run, 0);
    replies_can_be_read(
        settled.output_path@,
        settled.frame_count,
        settled.captured_count,
        settled.fps,
    );
}

/// Whatever a request to stop is answered, no recording is active after it: the
/// next request to stop is refused, and one to start is granted at any rate that
/// the pipeline can honor.
pub proof fn the_recorder_is_free_after_a_stop(
    before: RecordingState,
    after: RecordingState,
    result: Result<Value, String>,
    path: Seq<char>,
    fps: Option<u32>,
    next: RecordingState,
    next_result: Result<Value, String>,
)
    requires
        stops(before, after, result),
    ensures
        !after.active,
        stops(after, next, next_result) ==> refuses(next_result, "No recording in progress"@),
        starts(after, path, fps, next, next_result) && valid_fps(requested_fps(fps)) ==> (
        next_result is Ok && next.active),
{
}

/// After a task has ended, however it ended, the slot owns no attachment.
pub proof fn an_ended_task_owns_nothing(
    settlement: Settlement,
    before: Option<CaptureSession>,
    after: Option<CaptureSession>,
    target_id: Seq<char>,
    session_id: Seq<char>,
)
    requires
        settlement.update is Clear,
        settlement.update.updates(before, after),
    ensures
        !slot_owns(after, target_id, session_id),
{
}

/// Every member of a reply is there to be read under its own name.
pub proof fn replies_can_be_read(path: Seq<char>, frames: u64, captured: u64, fps: u32)
    ensures
        start_reply(path, fps).member("started"@) == Some(Json::Bool(true)),
        start_reply(path, fps).member("path"@) == Some(Json::Text(path)),
        start_reply(path, fps).member("fps"@) == Some(Json::Integer(fps as int)),
        stop_reply(path, frames, captured, fps).member("path"@) == Some(Json::Text(path)),
        stop_reply(path, frames, captured, fps).member("frames"@) == Some(
            Json::Integer(frames as int),
        ),
        stop_reply(path, frames, captured, fps).member("capturedFrames"@) == Some(
            Json::Integer(captured as int),
        ),
        stop_reply(path, frames, captured, fps).member("fps"@) == Some(Json::Integer(fps as int)),
{
    reveal_strlit("started");
    reveal_strlit("path");
    reveal_strlit("fps");
    reveal_strlit("frames");
    reveal_strlit("capturedFrames");
    assert("started"@.len() == 7);
    assert("path"@.len() == 4);
    assert("fps"@.len() == 3);
    assert("frames"@.len() == 6);
    assert("capturedFrames"@.len() == 14);
}

/// A rate that is refused is named in the report, with the rates that are not.
pub proof fn invalid_rates_are_named(fps: u32)
    ensures
        invalid_fps_report(fps) == "Invalid fps: "@ + decimal(fps as nat)
            + " is out of range (valid range: 1-60)"@,
        valid_fps(fps) <==> 1 <= fps <= 60,
        DEFAULT_FPS == 30,
        MAX_FPS == 60,
{
    reveal_strlit(" is out of range (valid range: 1-");
    reveal_strlit(")");
    reveal_strlit(" is out of range (valid range: 1-60)");
    reveal_with_fuel(decimal, 3);
    assert(decimal(6) =~= seq!['6']);
    assert(decimal(60) =~= seq!['6', '0']);
    assert(invalid_fps_report(fps) =~= "Invalid fps: "@ + decimal(fps as nat)
        + " is out of range (valid range: 1-60)"@);
}

/// Rates from 1 to 60 are accepted as they are, and all others are refused.
pub proof fn rates_up_to_sixty_are_accepted(fps: u32, result: Result<u32, String>)
    requires
        validates(fps, result),
    ensures
        1 <= fps <= 60 ==> (result matches Ok(accepted) && accepted == fps),
        fps == 0 || fps > 60 ==> (result matches Err(message) && message@ == "Invalid fps: "@
            + decimal(fps as nat) + " is out of range (valid range: 1-60)"@),
{
    invalid_rates_are_named(fps);
}

/// A recorder that has recorded nothing is at rest, at thirty frames a second,
/// with nothing counted, nothing running and an empty slot.
pub proof fn new_recorders_are_at_rest(state: RecordingState)
    requires
        state.is_new(),
    ensures
        !state.active,
        state.output_path@.len() == 0,
        state.fps == 30,
        state.frame_count == 0,
        state.captured_count == 0,
        state.capture_task is None,
        state.shared_frame_count is None,
        state.shared_captured_count is None,
        state.cancel_tx is None,
        made_with(*state.capture_session) is None,
{
}

/// A recorder at rest that is asked for a rate from 1 to 60, or for none, begins
/// a recording to the path, at that rate or at thirty, with nothing counted; its
/// running parts and its slot stay as they are. The reply names the path and the
/// rate and nothing else.
pub proof fn starts_are_granted_at_rest(
    before: RecordingState,
    path: Seq<char>,
    fps: Option<u32>,
    after: RecordingState,
    result: Result<Value, String>,
)
    requires
        starts(before, path, fps, after, result),
        !before.active,
        fps matches Some(asked) ==> 1 <= asked <= 60,
    ensures
        after.active,
        after.output_path@ == path,
        fps is None ==> after.fps == 30,
        fps matches Some(asked) ==> after.fps == asked,
        after.frame_count == 0,
        after.captured_count == 0,
        after.capture_task == before.capture_task,
        after.shared_frame_count == before.shared_frame_count,
        after.shared_captured_count == before.shared_captured_count,
        after.cancel_tx == before.cancel_tx,
        after.capture_session == before.capture_session,
        result matches Ok(reply) && (json_of(reply) matches Json::Object(members) && {
            &&& members.dom() == set!["started"@, "path"@, "fps"@]
            &&& members["started"@] == Json::Bool(true)
            &&& members["path"@] == Json::Text(path)
            &&& members["fps"@] == Json::Integer(after.fps as int)
        }),
{
    replies_can_be_read(path, 0, 0, after.fps);
    let members = json_of(result->Ok_0)->Object_0;
    assert(members.dom() =~= set!["started"@, "path"@, "fps"@]);
}

/// A recorder that is recording, or that is asked for any other rate, refuses and
/// stays as it is. That it is recording is what it says first.
pub proof fn starts_are_refused_otherwise(
    before: RecordingState,
    path: Seq<char>,
    fps: Option<u32>,
    after: RecordingState,
    result: Result<Value, String>,
)
    requires
        starts(before, path, fps, after, result),
        before.active || (fps matches Some(asked) && !(1 <= asked <= 60)),
    ensures
        after == before,
        before.active ==> (result matches Err(message) && message@ == "Recording already active"@),
        !before.active ==> (result matches Err(message) && message@ == "Invalid fps: "@ + decimal(
            fps->0 as nat,
        ) + " is out of range (valid range: 1-60)"@),
{
    if fps is Some {
        invalid_rates_are_named(fps->0);
    }
}

/// A recording is reported by what the recorder holds of it, and nothing of that
/// is changed by the stop but that it is over.
pub proof fn stops_report_what_was_recorded(
    before: RecordingState,
    after: RecordingState,
    result: Result<Value, String>,
)
    requires
        stops(before, after, result),
    ensures
        !after.active,
        after.output_path@ == before.output_path@,
        after.fps == before.fps,
        after.frame_count == before.frame_count,
        after.captured_count == before.captured_count,
        after.capture_task == before.capture_task,
        after.shared_frame_count == before.shared_frame_count,
        after.shared_captured_count == before.shared_captured_count,
        after.cancel_tx == before.cancel_tx,
        after.capture_session == before.capture_session,
        !before.active ==> (result matches Err(message) && message@ == "No recording in progress"@),
        before.active && before.frame_count == 0 ==> (result matches Err(message) && message@
            == "No frames captured"@),
        before.active && before.frame_count > 0 ==> (result matches Ok(reply) && (
        json_of(reply) matches Json::Object(members) && {
            &&& members.dom() == set!["path"@, "frames"@, "capturedFrames"@, "fps"@]
            &&& members["path"@] == Json::Text(before.output_path@)
            &&& members["frames"@] == Json::Integer(before.frame_count as int)
            &&& members["capturedFrames"@] == Json::Integer(before.captured_count as int)
            &&& members["fps"@] == Json::Integer(before.fps as int)
        })),
{
    replies_can_be_read(
        before.output_path@,
        before.frame_count,
        before.captured_count,
        before.fps,
    );
    if before.active && before.frame_count > 0 {
        let members = json_of(result->Ok_0)->Object_0;
        assert(members.dom() =~= set!["path"@, "frames"@, "capturedFrames"@, "fps"@]);
    }
}

/// The running parts are handed over as they are, and the recording itself and
/// its slot stay.
pub proof fn running_parts_are_handed_over(
    before: RecordingState,
    after: RecordingState,
    running: RunningTask,
)
    requires
        hands_over(before, after, running),
    ensures
        running.cancel == before.cancel_tx,
        running.frame_count == before.shared_frame_count,
        running.captured_count == before.shared_captured_count,
        running.task == before.capture_task,
        after.cancel_tx is None,
        after.shared_frame_count is None,
        after.shared_captured_count is None,
        after.capture_task is None,
        after.active == before.active,
        after.output_path@ == before.output_path@,
        after.fps == before.fps,
        after.frame_count == before.frame_count,
        after.captured_count == before.captured_count,
        after.capture_session == before.capture_session,
{
}

/// The counts of an ended task replace those of the recorder where it kept any,
/// each its own, however it ended; the rest stays. Its result is passed on as it
/// is, a task that did not come to one is reported with the cause, and where there
/// was none there is nothing to report. The slot is emptied.
pub proof fn ended_tasks_leave_their_counts(
    before: RecordingState,
    exit: TaskExit,
    frames: Option<u64>,
    captured: Option<u64>,
    after: RecordingState,
    settlement: Settlement,
)
    requires
        ends(before, exit, frames, captured, after, settlement),
    ensures
        frames matches Some(count) ==> after.frame_count == count,
        frames is None ==> after.frame_count == before.frame_count,
        captured matches Some(count) ==> after.captured_count == count,
        captured is None ==> after.captured_count == before.captured_count,
        after.active == before.active,
        after.output_path@ == before.output_path@,
        after.fps == before.fps,
        after.capture_task == before.capture_task,
        after.shared_frame_count == before.shared_frame_count,
        after.shared_captured_count == before.shared_captured_count,
        after.cancel_tx == before.cancel_tx,
        after.capture_session == before.capture_session,
        exit is Absent ==> settlement.result is Ok,
        exit matches TaskExit::Finished(own) ==> settlement.result == own,
        exit matches TaskExit::Panicked(cause) ==> (settlement.result matches Err(message)
            && message@ == "Recording task panicked: "@ + cause@),
        settlement.update is Clear,
{
}

/// A recorder that is at a rate from 1 to 60 stays at one, whatever it is asked.
pub proof fn recorders_stay_at_a_valid_rate(
    before: RecordingState,
    path: Seq<char>,
    fps: Option<u32>,
    after: RecordingState,
    result: Result<Value, String>,
)
    requires
        1 <= before.fps <= 60,
        starts(before, path, fps, after, result) || stops(before, after, result),
    ensures
        before.wf(),
        after.wf(),
        1 <= after.fps <= 60,
{
}

} // verus!
