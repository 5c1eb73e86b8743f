//! The capture task: frames are captured first, without loss, and encoded after
//! the take has ended.

use crate::collect::CapturedRecording;
use crate::command::{
    detach_session, detach_session_command, screencasts_start_with_every_frame,
    sessions_are_detached_by_the_browser, start_screencast, start_screencast_command,
    stop_screencast, stop_screencast_command, Command,
};
use crate::encode::{every_slot_is_fed_once, EncodeStep, EncodingRun};
use crate::json::{json_of, Json};
use crate::state::{
    invalid_fps_report, invalid_rates_are_named, refuses, valid_fps, validate_fps,
};
use crate::text::{decimal, joined};
use vstd::prelude::*;

verus! {

/// Upper bound on waiting for Chrome to acknowledge screencast teardown.
/// The page may already be gone by the time a recording stops.
pub const TEARDOWN_TIMEOUT_SECS: u64 = 2;

/// What a capture came to.
pub type Capture = Result<CapturedRecording, String>;

/// What a capture task works on.
pub struct RecordingTask {
    pub capture_session: String,
    pub output_path: String,
    pub fps: u32,
}

/// What to do next.
pub enum TaskStep {
    /// Subscribe to the session, then create the frame directory.
    Prepare { session: String },
    /// Start the screencast.
    Start { command: Command },
    /// Collect the frames of the session until the take ends.
    Collect { session: String },
    /// End the subscription to the session.
    Unsubscribe { session: String, capture: Capture },
    /// Stop the screencast. What comes of it is of no account.
    StopScreencast { command: Command, limit_secs: u64, capture: Capture },
    /// Detach the capture session. What comes of it is of no account.
    Detach { command: Command, limit_secs: u64, capture: Capture },
    /// Encode the capture to a file.
    Encode { recording: CapturedRecording, output_path: String, fps: u32 },
    /// Publish the number of frames that were written.
    Publish { written: u64 },
    /// The task is over.
    Done { result: Result<(), String> },
}

/// What came of the last step.
pub enum TaskEvent {
    /// The task was started.
    Spawned,
    /// Whether the frame directory is there.
    Prepared(Result<(), String>),
    /// Whether the screencast runs.
    Started(Result<(), String>),
    Collected(Capture),
    Unsubscribed { capture: Capture },
    ScreencastStopped { capture: Capture },
    Detached { capture: Capture },
    /// The number of frames that were written.
    Encoded(Result<u64, String>),
    Published,
}

/// The step ends the task with this report.
pub open spec fn aborts(step: TaskStep, report: Seq<char>) -> bool {
    step matches TaskStep::Done { result } && refuses(result, report)
}

impl RecordingTask {
    /// What follows on an event.
    pub open spec fn follows(self, event: TaskEvent, step: TaskStep) -> bool {
        match event {
            TaskEvent::Spawned => if valid_fps(self.fps) {
                &&& step matches TaskStep::Prepare { session }
                &&& session@ == self.capture_session@
            } else {
                aborts(step, invalid_fps_report(self.fps))
            },
            TaskEvent::Prepared(Ok(_)) => {
                &&& step matches TaskStep::Start { command }
                &&& command@ == start_screencast(self.capture_session@)
            },
            TaskEvent::Prepared(Err(cause)) => aborts(
                step,
                "Failed to create recording frame directory: "@ + cause@,
            ),
            TaskEvent::Started(Ok(_)) => {
                &&& step matches TaskStep::Collect { session }
                &&& session@ == self.capture_session@
            },
            TaskEvent::Started(Err(cause)) => {
                &&& step matches TaskStep::Unsubscribe { session, capture }
                &&& session@ == self.capture_session@
                &&& refuses(capture, "Failed to start screencast: "@ + cause@)
            },
            TaskEvent::Collected(collected) => {
                &&& step matches TaskStep::Unsubscribe { session, capture }
                &&& session@ == self.capture_session@
                &&& capture == collected
            },
            TaskEvent::Unsubscribed { capture: collected } => {
                &&& step matches TaskStep::StopScreencast { command, limit_secs, capture }
                &&& command@ == stop_screencast(self.capture_session@)
                &&& limit_secs == TEARDOWN_TIMEOUT_SECS
                &&& capture == collected
            },
            TaskEvent::ScreencastStopped { capture: collected } => {
                &&& step matches TaskStep::Detach { command, limit_secs, capture }
                &&& command@ == detach_session(self.capture_session@)
                &&& limit_secs == TEARDOWN_TIMEOUT_SECS
                &&& capture == collected
            },
            TaskEvent::Detached { capture: Ok(collected) } => {
                &&& step matches TaskStep::Encode { recording, output_path, fps }
                &&& recording == collected
                &&& output_path@ == self.output_path@
                &&& fps == self.fps
            },
            TaskEvent::Detached { capture: Err(cause) } => aborts(step, cause@),
            TaskEvent::Encoded(Ok(frames)) => {
                &&& step matches TaskStep::Publish { written }
                &&& written == frames
            },
            TaskEvent::Encoded(Err(cause)) => aborts(step, cause@),
            TaskEvent::Published => {
                &&& step matches TaskStep::Done { result }
                &&& result is Ok
            },
        }
    }

    /// What follows on an event. The screencast is torn down whatever the
    /// capture came to.
    pub fn next_step(&self, event: TaskEvent) -> (step: TaskStep)
        ensures
            self.follows(event, step),
    {
        match event {
            TaskEvent::Spawned => match validate_fps(self.fps) {
                Ok(_) => TaskStep::Prepare { session: self.capture_session.clone() },
                Err(message) => TaskStep::Done { result: Err(message) },
            },
            TaskEvent::Prepared(Ok(_)) => TaskStep::Start {
                command: start_screencast_command(self.capture_session.as_str()),
            },
            TaskEvent::Prepared(Err(cause)) => TaskStep::Done {
                result: Err(
                    joined("Failed to create recording frame directory: ", cause.as_str()),
                ),
            },
            TaskEvent::Started(Ok(_)) => TaskStep::Collect {
                session: self.capture_session.clone(),
            },
            TaskEvent::Started(Err(cause)) => TaskStep::Unsubscribe {
                session: self.capture_session.clone(),
                capture: Err(joined("Failed to start screencast: ", cause.as_str())),
            },
            TaskEvent::Collected(capture) => TaskStep::Unsubscribe {
                session: self.capture_session.clone(),
                capture,
            },
            TaskEvent::Unsubscribed { capture } => TaskStep::StopScreencast {
                command: stop_screencast_command(self.capture_session.as_str()),
                limit_secs: TEARDOWN_TIMEOUT_SECS,
                capture,
            },
            TaskEvent::ScreencastStopped { capture } => TaskStep::Detach {
                command: detach_session_command(self.capture_session.as_str()),
                limit_secs: TEARDOWN_TIMEOUT_SECS,
                capture,
            },
            TaskEvent::Detached { capture: Ok(recording) } => TaskStep::Encode {
                recording,
                output_path: self.output_path.clone(),
                fps: self.fps,
            },
            TaskEvent::Detached { capture: Err(cause) } => TaskStep::Done { result: Err(cause) },
            TaskEvent::Encoded(Ok(written)) => TaskStep::Publish { written },
            TaskEvent::Encoded(Err(cause)) => TaskStep::Done { result: Err(cause) },
            TaskEvent::Published => TaskStep::Done { result: Ok(()) },
        }
    }
}

/// The event tells what came of the step.
pub open spec fn answers(step: TaskStep, event: TaskEvent) -> bool {
    match step {
        TaskStep::Prepare { .. } => event is Prepared,
        TaskStep::Start { .. } => event is Started,
        TaskStep::Collect { .. } => event is Collected,
        TaskStep::Unsubscribe { capture, .. } => event matches TaskEvent::Unsubscribed {
            capture: kept,
        } && kept == capture,
        TaskStep::StopScreencast { capture, .. } => event matches TaskEvent::ScreencastStopped {
            capture: kept,
        } && kept == capture,
        TaskStep::Detach { capture, .. } => event matches TaskEvent::Detached { capture: kept }
            && kept == capture,
        TaskStep::Encode { .. } => event is Encoded,
        TaskStep::Publish { .. } => event is Published,
        TaskStep::Done { .. } => false,
    }
}

/// The course of a task from its beginning, event by event.
pub struct TaskRun {
    pub task: RecordingTask,
    pub events: Seq<TaskEvent>,
    /// The step that each event leads to.
    pub steps: Seq<TaskStep>,
}

impl TaskRun {
    /// Event `i` is what came of the step before it, and leads to step `i`.
    pub open spec fn follows_at(self, i: int) -> bool {
        &&& self.task.follows(self.events[i], self.steps[i])
        &&& if i == 0 {
            self.events[0] is Spawned
        } else {
            answers(self.steps[i - 1], self.events[i])
        }
    }

    /// Every event is what came of the step before it, and leads to the next.
    pub open spec fn is_run(self) -> bool {
        &&& self.events.len() == self.steps.len()
        &&& forall|i: int| 0 <= i < self.steps.len() ==> #[trigger] self.follows_at(i)
    }

    /// Step `i` ends the task.
    pub open spec fn ends_at(self, i: int) -> bool {
        0 <= i < self.steps.len() && self.steps[i] is Done
    }

    /// Steps `i`, `i + 1` and `i + 2` tear the screencast down.
    pub open spec fn tears_down_at(self, i: int) -> bool {
        &&& 0 <= i
        &&& i + 2 < self.steps.len()
        &&& self.steps[i] is Unsubscribe
        &&& self.steps[i + 1] is StopScreencast
        &&& self.steps[i + 2] is Detach
    }
}

/// The first steps of a task, up to the first one that the capture is known at.
proof fn opening_steps(run: TaskRun)
    requires
        run.is_run(),
    ensures
        run.steps.len() > 0 ==> run.steps[0] is Prepare || run.steps[0] is Done,
        run.steps.len() > 0 && run.steps[0] is Done ==> run.steps.len() == 1,
        run.steps.len() > 1 ==> run.steps[1] is Start || run.steps[1] is Done,
        run.steps.len() > 1 && run.steps[1] is Done ==> run.steps.len() == 2,
        run.steps.len() > 2 ==> run.steps[2] is Collect || run.steps[2] is Unsubscribe,
        run.steps.len() > 3 && run.steps[2] is Collect ==> run.steps[3] is Unsubscribe,
{
    if run.steps.len() > 0 {
        assert(run.follows_at(0));
    }
    if run.steps.len() > 1 {
        assert(run.follows_at(1));
    }
    if run.steps.len() > 2 {
        assert(run.follows_at(2));
    }
    if run.steps.len() > 3 {
        assert(run.follows_at(3));
    }
}

/// The steps from the end of a subscription on.
proof fn closing_steps(run: TaskRun, i: int)
    requires
        run.is_run(),
        0 <= i < run.steps.len(),
        run.steps[i] is Unsubscribe,
    ensures
        i + 1 < run.steps.len() ==> run.steps[i + 1] is StopScreencast,
        i + 2 < run.steps.len() ==> run.steps[i + 2] is Detach,
        i + 3 < run.steps.len() ==> run.steps[i + 3] is Encode || run.steps[i + 3] is Done,
        i + 3 < run.steps.len() && run.steps[i + 3] is Done ==> run.steps.len() == i + 4,
        i + 3 < run.steps.len() && run.steps[i]->Unsubscribe_capture is Err ==> (
        run.steps[i + 3] matches TaskStep::Done { result: Err(_) }),
        i + 4 < run.steps.len() ==> run.steps[i + 4] is Publish || run.steps[i + 4] is Done,
        i + 4 < run.steps.len() && run.steps[i + 4] is Done ==> run.steps.len() == i + 5,
        i + 5 < run.steps.len() ==> run.steps[i + 5] is Done,
        run.steps.len() <= i + 6,
{
    if i + 1 < run.steps.len() {
        assert(run.follows_at(i + 1));
    }
    if i + 2 < run.steps.len() {
        assert(run.follows_at(i + 2));
    }
    if i + 3 < run.steps.len() {
        assert(run.follows_at(i + 3));
    }
    if i + 4 < run.steps.len() {
        assert(run.follows_at(i + 4));
    }
    if i + 5 < run.steps.len() {
        assert(run.follows_at(i + 5));
    }
    if i + 6 < run.steps.len() {
        assert(run.follows_at(i + 6));
    }
}

/// A task that has asked for a screencast tears it down before it ends, whatever
/// the capture came to: it unsubscribes, stops the screencast and detaches.
pub proof fn a_screencast_is_torn_down(run: TaskRun, start: int, end: int)
    requires
        run.is_run(),
        0 <= start < run.steps.len(),
        run.steps[start] is Start,
        run.ends_at(end),
    ensures
        exists|i: int| start < i && i + 2 < end && #[trigger] run.tears_down_at(i),
{
    opening_steps(run);
    if run.steps[0] is Done || run.steps[1] is Done {
        assert(end <= 1);
        assert(start <= 1);
    }
    let i: int = if run.steps.len() > 2 && run.steps[2] is Unsubscribe {
        2
    } else {
        3
    };
    if i < run.steps.len() {
        closing_steps(run, i);
    }
    assert(run.tears_down_at(i));
}

/// A task ends after nine steps at most.
pub proof fn a_task_ends(run: TaskRun)
    requires
        run.is_run(),
    ensures
        run.steps.len() <= 9,
        run.steps.len() == 9 ==> run.steps[8] is Done,
{
    opening_steps(run);
    if run.steps.len() > 3 {
        let i: int = if run.steps[2] is Unsubscribe {
            2
        } else {
            3
        };
        closing_steps(run, i);
    }
}

/// A rate that the pipeline cannot honor is reported before anything is done.
pub proof fn an_invalid_rate_is_not_recorded(run: TaskRun)
    requires
        run.is_run(),
        run.steps.len() > 0,
        !valid_fps(run.task.fps),
    ensures
        run.steps.len() == 1,
        aborts(run.steps[0], invalid_fps_report(run.task.fps)),
{
    assert(run.follows_at(0));
    if run.steps.len() > 1 {
        assert(run.follows_at(1));
    }
}

/// A task succeeds only with the number of frames that the encoder wrote, and
/// publishes it first.
pub proof fn a_task_succeeds_with_the_frames_written(run: TaskRun, end: int)
    requires
        run.is_run(),
        0 <= end < run.steps.len(),
        run.steps[end] matches TaskStep::Done { result: Ok(_) },
    ensures
        end > 0,
        run.steps[end - 1] is Publish,
        run.events[end - 1] == TaskEvent::Encoded(Ok(run.steps[end - 1]->written)),
{
    assert(run.follows_at(end));
    if end > 0 {
        assert(run.follows_at(end - 1));
    }
}

/// What went wrong with a capture is what the task ends with, after the
/// teardown.
pub proof fn a_failed_capture_is_reported(run: TaskRun, i: int, end: int)
    requires
        run.is_run(),
        0 <= i < run.steps.len(),
        run.steps[i] matches TaskStep::Unsubscribe { capture: Err(_), .. },
        run.ends_at(end),
    ensures
        end == i + 3,
        aborts(run.steps[end], run.steps[i]->Unsubscribe_capture->Err_0@),
{
    opening_steps(run);
    closing_steps(run, i);
    if run.steps.len() > 3 {
        let first: int = if run.steps[2] is Unsubscribe {
            2
        } else {
            3
        };
        closing_steps(run, first);
    }
    if i + 1 < run.steps.len() {
        assert(run.follows_at(i + 1));
    }
    if i + 2 < run.steps.len() {
        assert(run.follows_at(i + 2));
    }
    if i + 3 < run.steps.len() {
        assert(run.follows_at(i + 3));
    }
}

/// A task encodes the capture that it collected, to the path and at the rate
/// that it was given.
pub proof fn a_task_encodes_its_capture(run: TaskRun, i: int)
    requires
        run.is_run(),
        0 <= i < run.steps.len(),
        run.steps[i] is Encode,
    ensures
        i > 3,
        run.steps[i - 4] is Collect,
        run.events[i - 3] == TaskEvent::Collected(Ok(run.steps[i]->recording)),
        run.steps[i]->output_path@ == run.task.output_path@,
        run.steps[i]->fps == run.task.fps,
{
    assert(run.follows_at(i));
    if i > 0 {
        assert(run.follows_at(i - 1));
    }
    if i > 1 {
        assert(run.follows_at(i - 2));
    }
    if i > 2 {
        assert(run.follows_at(i - 3));
    }
    if i > 3 {
        assert(run.follows_at(i - 4));
    }
}

/// A task that succeeds has written a frame for every slot of its video, and so
/// one at least: its recording is never without frames.
pub proof fn a_successful_task_has_written_frames(
    run: TaskRun,
    end: int,
    encoding: EncodingRun,
    done: int,
)
    requires
        run.is_run(),
        0 <= end < run.steps.len(),
        run.steps[end] matches TaskStep::Done { result: Ok(_) },
        encoding.is_run(),
        0 <= done < encoding.steps.len(),
        encoding.steps[done] is Done,
        end > 0 ==> run.events[end - 1] == TaskEvent::Encoded(encoding.steps[done]->result),
    ensures
        end > 0,
        run.steps[end - 1] is Publish,
        run.steps[end - 1]->written == encoding.states[0].total,
        run.steps[end - 1]->written >= 1,
{
    a_task_succeeds_with_the_frames_written(run, end);
    every_slot_is_fed_once(encoding, done);
}

/// A task prepares for its own session at a rate from 1 to 60, and at any other
/// rate it ends at once and says so.
pub proof fn tasks_begin_at_a_valid_rate(task: RecordingTask, step: TaskStep)
    requires
        task.follows(TaskEvent::Spawned, step),
    ensures
        1 <= task.fps <= 60 ==> (step matches TaskStep::Prepare { session } && session@
            == task.capture_session@),
        !(1 <= task.fps <= 60) ==> (step matches TaskStep::Done { result } && (
        result matches Err(message) && message@ == "Invalid fps: "@ + decimal(task.fps as nat)
            + " is out of range (valid range: 1-60)"@)),
{
    invalid_rates_are_named(task.fps);
}

/// With its directory at hand, a task starts the screencast on its own session,
/// lossless and with every frame; without, it ends with the cause.
pub proof fn prepared_tasks_start_the_screencast(
    task: RecordingTask,
    step: TaskStep,
    cause: String,
)
    ensures
        task.follows(TaskEvent::Prepared(Ok(())), step) ==> (step matches TaskStep::Start {
            command,
        } && {
            &&& command.method@ == "Page.startScreencast"@
            &&& command.session matches Some(session)
            &&& session@ == task.capture_session@
            &&& command.params matches Some(params)
            &&& json_of(params) matches Json::Object(members)
            &&& members.dom() == set!["format"@, "everyNthFrame"@]
            &&& members["format"@] == Json::Text("png"@)
            &&& members["everyNthFrame"@] == Json::Integer(1)
        }),
        task.follows(TaskEvent::Prepared(Err(cause)), step) ==> (step matches TaskStep::Done {
            result,
        } && (result matches Err(message) && message@
            == "Failed to create recording frame directory: "@ + cause@)),
{
    if task.follows(TaskEvent::Prepared(Ok(())), step) {
        screencasts_start_with_every_frame(step->Start_command, task.capture_session@);
    }
}

/// With its screencast running, a task collects the frames of its own session;
/// otherwise it has the cause for a capture.
pub proof fn started_tasks_collect(task: RecordingTask, step: TaskStep, cause: String)
    ensures
        task.follows(TaskEvent::Started(Ok(())), step) ==> (step matches TaskStep::Collect {
            session,
        } && session@ == task.capture_session@),
        task.follows(TaskEvent::Started(Err(cause)), step) ==> (step matches TaskStep::Unsubscribe {
            session,
            capture,
        } && {
            &&& session@ == task.capture_session@
            &&& capture matches Err(message)
            &&& message@ == "Failed to start screencast: "@ + cause@
        }),
{
}

/// Whatever was captured, it is kept as it is while the task unsubscribes, stops
/// the screencast and detaches, all on its own session and waiting two seconds
/// at most for each reply.
pub proof fn teardown_keeps_the_capture(task: RecordingTask, step: TaskStep, kept: Capture)
    ensures
        task.follows(TaskEvent::Collected(kept), step) ==> (step matches TaskStep::Unsubscribe {
            session,
            capture,
        } && session@ == task.capture_session@ && capture == kept),
        task.follows(TaskEvent::Unsubscribed { capture: kept }, step) ==> (
        step matches TaskStep::StopScreencast { command, limit_secs, capture } && {
            &&& capture == kept
            &&& limit_secs == 2
            &&& command.method@ == "Page.stopScreencast"@
            &&& command.params is None
            &&& command.session matches Some(session)
            &&& session@ == task.capture_session@
        }),
        task.follows(TaskEvent::ScreencastStopped { capture: kept }, step) ==> (
        step matches TaskStep::Detach { command, limit_secs, capture } && {
            &&& capture == kept
            &&& limit_secs == 2
            &&& command.method@ == "Target.detachFromTarget"@
            &&& command.session is None
            &&& command.params matches Some(params)
            &&& json_of(params) matches Json::Object(members)
            &&& members.dom() == set!["sessionId"@]
            &&& members["sessionId"@] == Json::Text(task.capture_session@)
        }),
{
    if task.follows(TaskEvent::ScreencastStopped { capture: kept }, step) {
        sessions_are_detached_by_the_browser(step->Detach_command, task.capture_session@);
    }
}

/// After the teardown, a capture is encoded as it is, to the path and at the rate
/// of the task; the error of one that failed is the task's own.
pub proof fn captures_are_encoded_as_they_are(
    task: RecordingTask,
    step: TaskStep,
    captured: CapturedRecording,
    cause: String,
)
    ensures
        task.follows(TaskEvent::Detached { capture: Ok(captured) }, step) ==> (
        step matches TaskStep::Encode { recording, output_path, fps } && {
            &&& recording == captured
            &&& output_path@ == task.output_path@
            &&& fps == task.fps
        }),
        task.follows(TaskEvent::Detached { capture: Err(cause) }, step) ==> (
        step matches TaskStep::Done { result } && (result matches Err(message) && message@
            == cause@)),
{
}

/// What the encoder wrote is published, and then the task has succeeded; the
/// error of an encoder that failed is the task's own, and nothing is published.
pub proof fn written_frames_are_published(
    task: RecordingTask,
    step: TaskStep,
    frames: u64,
    cause: String,
)
    ensures
        task.follows(TaskEvent::Encoded(Ok(frames)), step) ==> (step matches TaskStep::Publish {
            written,
        } && written == frames),
        task.follows(TaskEvent::Encoded(Err(cause)), step) ==> (step matches TaskStep::Done {
            result,
        } && (result matches Err(message) && message@ == cause@)),
        task.follows(TaskEvent::Published, step) ==> (step matches TaskStep::Done { result }
            && result is Ok),
{
}

} // verus!
