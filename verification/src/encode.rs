//! Encoding a capture: the order in which ffmpeg is started, fed one frame for
//! every slot of the video, and waited for.

use crate::collect::{CapturedRecording, CapturedVideoFrame};
use crate::ffmpeg::{
    build_ffmpeg_command, commands_call_ffmpeg, ffmpeg_args, lossy_utf8, EncodeFailure,
    EncoderCommand,
};
use crate::schedule::{
    in_capture_order, on_screen, turning_gets_to_the_latest_frame, turns_to, PageCursor,
};
use vstd::prelude::*;

verus! {

/// What to do next.
pub enum EncodeStep {
    /// Start the encoder.
    Launch { command: EncoderCommand },
    /// Take hold of the encoder's standard input.
    TakeStdin,
    /// Find the time of a slot, from the start of the video.
    Time { slot: u64 },
    /// Read the image of a frame into memory.
    Load { page: usize, file_name: String },
    /// Feed the image in memory, which is that of frame `page`.
    Write { page: usize },
    /// Close the encoder's standard input and wait for its end.
    Close,
    /// The encoding is over.
    Done { result: Result<u64, String> },
}

/// How the encoder ended.
pub struct EncoderExit {
    pub success: bool,
    pub stderr: Vec<u8>,
}

/// What came of a step.
pub enum EncodeEvent {
    /// The encoding was asked for.
    Begun,
    Launched(Result<(), String>),
    /// Whether the standard input was there.
    StdinTaken(bool),
    /// The slot's time, in nanoseconds.
    Timed(u128),
    Loaded(Result<(), String>),
    Written(Result<(), String>),
    Exited(Result<EncoderExit, String>),
}

/// An encoding under way.
pub struct Encoding {
    capture: CapturedRecording,
    output_path: String,
    fps: u32,
    total: u64,
    slot: u64,
    cursor: PageCursor,
}

/// Where an encoding stands.
pub struct EncodingModel {
    /// The frames of the capture.
    pub frames: Seq<CapturedVideoFrame>,
    /// How long the capture took.
    pub duration_nanos: u128,
    pub output: Seq<char>,
    pub fps: nat,
    /// The slots of the video.
    pub total: int,
    /// The slots that were fed.
    pub slot: int,
    /// The frame that is on screen.
    pub page: int,
    /// The frame whose image is in memory, or is being read into it.
    pub loaded: Option<int>,
}

impl EncodingModel {
    /// Nothing was done yet.
    pub open spec fn is_fresh(self) -> bool {
        self.slot == 0 && self.page == 0 && self.loaded is None && self.total >= 1
    }
}

impl View for Encoding {
    type V = EncodingModel;

    closed spec fn view(&self) -> EncodingModel {
        EncodingModel {
            frames: self.capture.frames@,
            duration_nanos: self.capture.duration_nanos,
            output: self.output_path@,
            fps: self.fps as nat,
            total: self.total as int,
            slot: self.slot as int,
            page: self.cursor.page(),
            loaded: self.cursor.loaded(),
        }
    }
}

/// The step ends the encoding with the report on `failure`.
pub open spec fn fails_with(step: EncodeStep, failure: EncodeFailure) -> bool {
    &&& step matches EncodeStep::Done { result }
    &&& result matches Err(message)
    &&& message@ == failure.report()
}

/// The step goes on with slot `slot` of `total`, or closes the encoder where all
/// of them were fed.
pub open spec fn goes_on(step: EncodeStep, slot: int, total: int) -> bool {
    if slot < total {
        step matches EncodeStep::Time { slot: next } && next == slot
    } else {
        step is Close
    }
}

/// What follows on an event: where the encoding then stands, and the next step.
/// No more slots are counted than the video has.
pub open spec fn proceeds(
    before: EncodingModel,
    event: EncodeEvent,
    after: EncodingModel,
    step: EncodeStep,
) -> bool {
    match event {
        EncodeEvent::Begun => {
            &&& after == before
            &&& step matches EncodeStep::Launch { command }
            &&& command.encodes(before.output, before.fps)
        },
        EncodeEvent::Launched(Ok(_)) => after == before && step is TakeStdin,
        EncodeEvent::Launched(Err(cause)) => after == before && fails_with(
            step,
            EncodeFailure::Launch(cause),
        ),
        EncodeEvent::StdinTaken(true) => after == before && goes_on(
            step,
            before.slot,
            before.total,
        ),
        EncodeEvent::StdinTaken(false) => after == before && fails_with(
            step,
            EncodeFailure::Stdin,
        ),
        EncodeEvent::Timed(elapsed_nanos) => {
            &&& turns_to(before.frames, before.page, after.page, elapsed_nanos)
            &&& after == (EncodingModel { page: after.page, loaded: Some(after.page), ..before })
            &&& if before.loaded == Some(after.page) {
                step matches EncodeStep::Write { page } && page == after.page
            } else {
                &&& step matches EncodeStep::Load { page, file_name }
                &&& page == after.page
                &&& file_name@ == before.frames[after.page].file_name@
            }
        },
        EncodeEvent::Loaded(Ok(_)) => after == before && (step matches EncodeStep::Write { page }
            && page == before.page),
        EncodeEvent::Loaded(Err(cause)) => after == before && fails_with(
            step,
            EncodeFailure::Read(cause),
        ),
        EncodeEvent::Written(Ok(_)) => {
            let fed = if before.slot < before.total {
                before.slot + 1
            } else {
                before.slot
            };
            &&& after == (EncodingModel { slot: fed, ..before })
            &&& goes_on(step, fed, before.total)
        },
        EncodeEvent::Written(Err(cause)) => after == before && fails_with(
            step,
            EncodeFailure::Write(cause),
        ),
        EncodeEvent::Exited(Ok(exit)) => {
            &&& after == before
            &&& if exit.success {
                &&& step matches EncodeStep::Done { result }
                &&& result matches Ok(written)
                &&& written == before.total
            } else {
                fails_with(step, EncodeFailure::Exit(exit.stderr))
            }
        },
        EncodeEvent::Exited(Err(cause)) => after == before && fails_with(
            step,
            EncodeFailure::Wait(cause),
        ),
    }
}

/// Where the encoding of a capture stands at first.
pub open spec fn begins(
    capture: CapturedRecording,
    output: Seq<char>,
    fps: u32,
    slots: u64,
    encoding: EncodingModel,
) -> bool {
    &&& encoding.is_fresh()
    &&& encoding.frames == capture.frames@
    &&& encoding.duration_nanos == capture.duration_nanos
    &&& encoding.output == output
    &&& encoding.fps == fps
    &&& encoding.total == if slots == 0 {
        1
    } else {
        slots
    }
}

/// Ends the encoding with the report on `failure`.
fn failed(failure: EncodeFailure) -> (step: EncodeStep)
    ensures
        fails_with(step, failure),
{
    EncodeStep::Done { result: Err(failure.message()) }
}

impl Encoding {
    /// There is a frame for every slot.
    pub open spec fn wf(self) -> bool {
        0 <= self@.page < self@.frames.len()
    }

    /// An encoding of a capture into a video that fills `slots` slots. A video
    /// has one slot at least.
    pub fn new(capture: CapturedRecording, output_path: &str, fps: u32, slots: u64) -> (encoding:
        Encoding)
        requires
            capture.frames@.len() > 0,
        ensures
            encoding.wf(),
            encoding@.is_fresh(),
            encoding@.frames == capture.frames@,
            encoding@.duration_nanos == capture.duration_nanos,
            encoding@.output == output_path@,
            encoding@.fps == fps,
            encoding@.total == if slots == 0 {
                1
            } else {
                slots
            },
            begins(capture, output_path@, fps, slots, encoding@),
    {
        let total: u64 = if slots == 0 {
            1
        } else {
            slots
        };
        Encoding {
            capture,
            output_path: output_path.to_owned(),
            fps,
            total,
            slot: 0,
            cursor: PageCursor::new(),
        }
    }

    /// Goes on with the next slot, or closes the encoder after the last.
    fn next_slot(&self) -> (step: EncodeStep)
        ensures
            goes_on(step, self@.slot, self@.total),
    {
        if self.slot < self.total {
            EncodeStep::Time { slot: self.slot }
        } else {
            EncodeStep::Close
        }
    }

    /// What follows on an event.
    pub fn next(&mut self, event: EncodeEvent) -> (step: EncodeStep)
        requires
            old(self).wf(),
        ensures
            final(self).wf(),
            proceeds(old(self)@, event, final(self)@, step),
    {
        match event {
            EncodeEvent::Begun => EncodeStep::Launch {
                command: build_ffmpeg_command(self.output_path.as_str(), self.fps),
            },
            EncodeEvent::Launched(Ok(_)) => EncodeStep::TakeStdin,
            EncodeEvent::Launched(Err(cause)) => failed(EncodeFailure::Launch(cause)),
            EncodeEvent::StdinTaken(true) => self.next_slot(),
            EncodeEvent::StdinTaken(false) => failed(EncodeFailure::Stdin),
            EncodeEvent::Timed(elapsed_nanos) => {
                match self.cursor.turn(&self.capture, elapsed_nanos) {
                    Some(page) => EncodeStep::Load {
                        page,
                        file_name: self.capture.frames[page].file_name.clone(),
                    },
                    None => EncodeStep::Write { page: self.cursor.current() },
                }
            },
            EncodeEvent::Loaded(Ok(_)) => EncodeStep::Write { page: self.cursor.current() },
            EncodeEvent::Loaded(Err(cause)) => failed(EncodeFailure::Read(cause)),
            EncodeEvent::Written(Ok(_)) => {
                if self.slot < self.total {
                    self.slot = self.slot + 1;
                }
                self.next_slot()
            },
            EncodeEvent::Written(Err(cause)) => failed(EncodeFailure::Write(cause)),
            EncodeEvent::Exited(Ok(exit)) => {
                if exit.success {
                    EncodeStep::Done { result: Ok(self.total) }
                } else {
                    failed(EncodeFailure::Exit(exit.stderr))
                }
            },
            EncodeEvent::Exited(Err(cause)) => failed(EncodeFailure::Wait(cause)),
        }
    }
}

/// The event tells what came of the step.
pub open spec fn answers(step: EncodeStep, event: EncodeEvent) -> bool {
    match step {
        EncodeStep::Launch { .. } => event is Launched,
        EncodeStep::TakeStdin => event is StdinTaken,
        EncodeStep::Time { .. } => event is Timed,
        EncodeStep::Load { .. } => event is Loaded,
        EncodeStep::Write { .. } => event is Written,
        EncodeStep::Close => event is Exited,
        EncodeStep::Done { .. } => false,
    }
}

/// The course of an encoding from its beginning, event by event.
pub struct EncodingRun {
    /// Where the encoding stands before each event, and after the last.
    pub states: Seq<EncodingModel>,
    pub events: Seq<EncodeEvent>,
    /// The step that each event leads to.
    pub steps: Seq<EncodeStep>,
}

impl EncodingRun {
    /// Event `i` is what came of the step before it, and leads to step `i`.
    pub open spec fn proceeds_at(self, i: int) -> bool {
        &&& proceeds(self.states[i], self.events[i], self.states[i + 1], self.steps[i])
        &&& if i == 0 {
            self.events[0] is Begun
        } else {
            answers(self.steps[i - 1], self.events[i])
        }
    }

    /// Every event is what came of the step before it, and leads to the next.
    pub open spec fn is_run(self) -> bool {
        &&& self.states.len() == self.steps.len() + 1
        &&& self.events.len() == self.steps.len()
        &&& self.states[0].is_fresh()
        &&& forall|i: int| 0 <= i < self.steps.len() ==> #[trigger] self.proceeds_at(i)
    }

    /// How often the encoder was fed in the first `count` steps.
    pub open spec fn feeds(self, count: int) -> int
        decreases count,
    {
        if count <= 0 {
            0
        } else if self.steps[count - 1] is Write {
            self.feeds(count - 1) + 1
        } else {
            self.feeds(count - 1)
        }
    }

    /// The times of the slots do not go back.
    pub open spec fn times_advance(self) -> bool {
        forall|i: int, j: int|
            0 <= i <= j < self.events.len() && (#[trigger] self.events[i]) is Timed && (
            #[trigger] self.events[j]) is Timed ==> self.events[i]->Timed_0
                <= self.events[j]->Timed_0
    }

    /// The last event up to `i` that told a slot's time.
    pub open spec fn last_timed(self, i: int) -> Option<int>
        decreases i + 1,
    {
        if i < 0 {
            None
        } else if self.events[i] is Timed {
            Some(i)
        } else {
            self.last_timed(i - 1)
        }
    }
}

/// The slots that were fed are counted, and the encoder is closed only after the
/// last of them.
proof fn slots_are_counted(run: EncodingRun, i: int)
    requires
        run.is_run(),
        0 <= i < run.steps.len(),
    ensures
        run.states[i + 1].total == run.states[0].total,
        0 <= run.states[i + 1].slot <= run.states[i + 1].total,
        (run.steps[i] matches EncodeStep::Done { result: Err(_) }) || run.feeds(i + 1)
            == run.states[i + 1].slot + if run.steps[i] is Write {
            1int
        } else {
            0
        },
        match run.steps[i] {
            EncodeStep::Launch { .. } => true,
            EncodeStep::TakeStdin => true,
            EncodeStep::Close => run.states[i + 1].slot == run.states[i + 1].total,
            EncodeStep::Done { result } => result matches Ok(written) ==> {
                &&& written == run.states[i + 1].total
                &&& run.states[i + 1].slot == run.states[i + 1].total
            },
            _ => run.states[i + 1].slot < run.states[i + 1].total,
        },
    decreases i,
{
    assert(run.proceeds_at(i));
    if i > 0 {
        slots_are_counted(run, i - 1);
    } else {
        assert(run.feeds(0) == 0);
    }
}

/// An encoding that succeeds has fed the encoder once for every slot of the
/// video, and reports that many frames, which is one at least.
pub proof fn every_slot_is_fed_once(run: EncodingRun, i: int)
    requires
        run.is_run(),
        0 <= i < run.steps.len(),
        run.steps[i] matches EncodeStep::Done { result: Ok(_) },
    ensures
        run.steps[i]->result->Ok_0 == run.states[0].total,
        run.steps[i]->result->Ok_0 >= 1,
        run.feeds(i) == run.states[0].total,
{
    slots_are_counted(run, i);
}

/// The frame on the page is on screen at the last time that was told.
proof fn page_is_on_screen(run: EncodingRun, i: int)
    requires
        run.is_run(),
        in_capture_order(run.states[0].frames),
        run.times_advance(),
        0 <= i < run.steps.len(),
    ensures
        run.states[i + 1].frames == run.states[0].frames,
        match run.last_timed(i) {
            Some(k) => {
                &&& 0 <= k <= i
                &&& run.events[k] is Timed
                &&& on_screen(
                    run.states[0].frames,
                    run.states[i + 1].page,
                    run.events[k]->Timed_0,
                )
            },
            None => run.states[i + 1].page == 0,
        },
    decreases i,
{
    assert(run.proceeds_at(i));
    if i > 0 {
        page_is_on_screen(run, i - 1);
    } else {
        assert(run.last_timed(-1) is None);
    }
    if run.events[i] is Timed {
        let time = run.events[i]->Timed_0;
        let earlier = match run.last_timed(i - 1) {
            Some(k) => run.events[k]->Timed_0,
            None => 0,
        };
        turning_gets_to_the_latest_frame(
            run.states[0].frames,
            run.states[i].page,
            run.states[i + 1].page,
            earlier,
            time,
        );
    }
}

/// Every slot is fed the last frame that was captured by its time, or the first
/// frame where none was: a frame is held through a gap until the next one. This
/// holds of frames that were captured one after another, and of times that do
/// not go back. The slot's time is the last one that was told: it was asked for
/// under the slot's own number, which is the number of slots fed before, and
/// nothing was fed since.
pub proof fn slots_are_fed_the_latest_frame(run: EncodingRun, i: int)
    requires
        run.is_run(),
        in_capture_order(run.states[0].frames),
        run.times_advance(),
        0 <= i < run.steps.len(),
        run.steps[i] is Write,
    ensures
        run.last_timed(i) matches Some(k) && {
            &&& 0 <= k <= i
            &&& run.events[k] is Timed
            &&& on_screen(
                run.states[0].frames,
                run.steps[i]->Write_page as int,
                run.events[k]->Timed_0,
            )
            &&& run.feeds(k) == run.feeds(i)
            &&& k > 0
            &&& run.steps[k - 1] matches EncodeStep::Time { slot }
            &&& slot == run.feeds(i)
        },
{
    assert(run.proceeds_at(i));
    page_is_on_screen(run, i);
    if run.events[i] is Loaded {
        assert(run.proceeds_at(i - 1));
        assert(run.events[i - 1] is Timed);
        assert(run.last_timed(i) == run.last_timed(i - 1));
    }
    let k = run.last_timed(i)->0;
    assert(run.proceeds_at(k));
    assert(run.proceeds_at(k - 1));
    slots_are_counted(run, k - 1);
}

/// Step `k` reads the frame `page`, and no step after it up to `i` reads one.
pub open spec fn read_last(run: EncodingRun, k: int, i: int, page: int) -> bool {
    &&& 0 <= k <= i
    &&& run.steps[k] matches EncodeStep::Load { page: read, .. }
    &&& read == page
    &&& forall|m: int| k < m <= i ==> !(#[trigger] run.steps[m] is Load)
}

/// The frame that counts as loaded is the one that was read last, and it is the
/// one on the page.
proof fn loaded_frame_was_read_last(run: EncodingRun, i: int)
    requires
        run.is_run(),
        0 <= i < run.steps.len(),
    ensures
        match run.states[i + 1].loaded {
            Some(page) => {
                &&& page == run.states[i + 1].page
                &&& exists|k: int| read_last(run, k, i, page)
            },
            None => !(run.steps[i] is Load),
        },
        run.steps[i] is Write ==> run.states[i + 1].loaded == Some(
            run.steps[i]->Write_page as int,
        ),
    decreases i,
{
    assert(run.proceeds_at(i));
    if i > 0 {
        loaded_frame_was_read_last(run, i - 1);
        assert(run.proceeds_at(i - 1));
    }
    if let Some(page) = run.states[i + 1].loaded {
        if run.steps[i] is Load {
            assert(read_last(run, i, i, page));
        } else {
            let last = i - 1;
            let k = choose|k: int| read_last(run, k, last, page);
            assert(read_last(run, k, i, page));
        }
    }
}

/// The image that the encoder is fed is that of the frame it is meant to be: it
/// was read, without a failure, and no other was read since.
pub proof fn fed_image_was_read_last(run: EncodingRun, i: int)
    requires
        run.is_run(),
        0 <= i < run.steps.len(),
        run.steps[i] is Write,
    ensures
        exists|k: int| #[trigger]
            read_last(run, k, i, run.steps[i]->Write_page as int) && k < i && (
            run.events[k + 1] matches EncodeEvent::Loaded(Ok(_))),
{
    let page = run.steps[i]->Write_page as int;
    loaded_frame_was_read_last(run, i);
    let k = choose|k: int| read_last(run, k, i, page);
    assert(run.proceeds_at(k + 1));
    if k + 1 < i {
        assert(run.proceeds_at(k + 2));
    }
    assert(read_last(run, k, i, page));
}

/// An encoding begins with the whole capture, to the file and at the rate it was
/// asked for, for as many slots as it was told, and for one where it was told
/// none. Nothing was fed and nothing is in memory.
pub proof fn encodings_begin_with_the_whole_capture(
    capture: CapturedRecording,
    output: Seq<char>,
    fps: u32,
    slots: u64,
    encoding: EncodingModel,
)
    requires
        begins(capture, output, fps, slots, encoding),
    ensures
        encoding.frames == capture.frames@,
        encoding.duration_nanos == capture.duration_nanos,
        encoding.output == output,
        encoding.fps == fps,
        slots > 0 ==> encoding.total == slots,
        slots == 0 ==> encoding.total == 1,
        encoding.slot == 0,
        encoding.page == 0,
        encoding.loaded is None,
{
}

/// The capture, the file, the rate and the length of the video stay what they
/// are; a slot is counted only when it was fed, and the page and the memory
/// change only with a time.
pub proof fn encodings_keep_to_their_capture(
    before: EncodingModel,
    event: EncodeEvent,
    after: EncodingModel,
    step: EncodeStep,
)
    requires
        proceeds(before, event, after, step),
    ensures
        after.frames == before.frames,
        after.duration_nanos == before.duration_nanos,
        after.output == before.output,
        after.fps == before.fps,
        after.total == before.total,
        !(event matches EncodeEvent::Written(Ok(_))) ==> after.slot == before.slot,
        (event matches EncodeEvent::Written(Ok(_))) && before.slot < before.total ==> after.slot
            == before.slot + 1,
        !(event is Timed) ==> after.page == before.page && after.loaded == before.loaded,
{
}

/// An encoding starts ffmpeg on its file and at its rate, argument by argument.
pub proof fn encodings_start_ffmpeg(
    before: EncodingModel,
    after: EncodingModel,
    step: EncodeStep,
    i: int,
)
    requires
        proceeds(before, EncodeEvent::Begun, after, step),
    ensures
        step matches EncodeStep::Launch { command } && {
            &&& command.program@ == "ffmpeg"@
            &&& command.args@.len() == ffmpeg_args(before.output, before.fps).len()
            &&& 0 <= i < command.args@.len() ==> command.args@[i]@ == ffmpeg_args(
                before.output,
                before.fps,
            )[i]
        },
{
    commands_call_ffmpeg(step->command, before.output, before.fps, i);
}

/// The encoder is taken hold of once it runs, and the first slot is next; where
/// either fails, nothing is fed.
pub proof fn encoders_are_taken_hold_of(
    before: EncodingModel,
    after: EncodingModel,
    step: EncodeStep,
    cause: String,
)
    ensures
        proceeds(before, EncodeEvent::Launched(Ok(())), after, step) ==> step is TakeStdin,
        proceeds(before, EncodeEvent::Launched(Err(cause)), after, step) ==> (
        step matches EncodeStep::Done { result } && (result matches Err(message) && message@
            == "ffmpeg not found or failed to execute: "@ + cause@
            + ". Install ffmpeg to enable recording."@)),
        proceeds(before, EncodeEvent::StdinTaken(false), after, step) ==> (
        step matches EncodeStep::Done { result } && (result matches Err(message) && message@
            == "Failed to open ffmpeg stdin"@)),
{
}

/// The slots follow one another by number, each from the first to the last, and
/// the encoder is closed behind the last.
pub proof fn slots_follow_one_another(
    before: EncodingModel,
    after: EncodingModel,
    step: EncodeStep,
)
    ensures
        proceeds(before, EncodeEvent::StdinTaken(true), after, step) ==> {
            &&& before.slot < before.total ==> (step matches EncodeStep::Time { slot } && slot
                == before.slot)
            &&& before.slot >= before.total ==> step is Close
        },
        proceeds(before, EncodeEvent::Written(Ok(())), after, step) && before.slot < before.total
            ==> {
            &&& before.slot + 1 < before.total ==> (step matches EncodeStep::Time { slot } && slot
                == before.slot + 1)
            &&& before.slot + 1 == before.total ==> step is Close
        },
{
}

/// At the time of a slot, the pages are turned past every frame that is due. The
/// frame that is then on the page is fed, from memory where it is there, and is
/// otherwise read first, from its own file.
pub proof fn due_frames_are_read_from_their_own_file(
    before: EncodingModel,
    elapsed_nanos: u128,
    after: EncodingModel,
    step: EncodeStep,
    i: int,
)
    requires
        proceeds(before, EncodeEvent::Timed(elapsed_nanos), after, step),
    ensures
        before.page <= after.page < before.frames.len(),
        before.page < i <= after.page ==> before.frames[i].elapsed_nanos <= elapsed_nanos,
        after.page + 1 < before.frames.len() ==> before.frames[after.page + 1].elapsed_nanos
            > elapsed_nanos,
        after.loaded == Some(after.page),
        before.loaded == Some(after.page) ==> (step matches EncodeStep::Write { page } && page
            == after.page),
        before.loaded != Some(after.page) ==> (step matches EncodeStep::Load { page, file_name }
            && page == after.page && file_name@ == before.frames[page as int].file_name@),
{
}

/// A frame that was read is fed next; one that could not be read, or not be fed,
/// ends the encoding with its cause.
pub proof fn read_frames_are_fed(
    before: EncodingModel,
    after: EncodingModel,
    step: EncodeStep,
    cause: String,
)
    ensures
        proceeds(before, EncodeEvent::Loaded(Ok(())), after, step) ==> (
        step matches EncodeStep::Write { page } && page == before.page),
        proceeds(before, EncodeEvent::Loaded(Err(cause)), after, step) ==> (
        step matches EncodeStep::Done { result } && (result matches Err(message) && message@
            == "Failed to read recording frame: "@ + cause@)),
        proceeds(before, EncodeEvent::Written(Err(cause)), after, step) ==> (
        step matches EncodeStep::Done { result } && (result matches Err(message) && message@
            == "ffmpeg write failed: "@ + cause@)),
{
}

/// An encoder that ends well has written every slot of the video. One that does
/// not, or whose end cannot be waited for, ends the encoding with an error.
pub proof fn exits_decide_the_encoding(
    before: EncodingModel,
    after: EncodingModel,
    step: EncodeStep,
    exit: EncoderExit,
    cause: String,
)
    ensures
        proceeds(before, EncodeEvent::Exited(Ok(exit)), after, step) ==> (
        step matches EncodeStep::Done { result } && {
            &&& exit.success ==> (result matches Ok(written) && written == before.total)
            &&& !exit.success ==> (result matches Err(message) && {
                let stderr = lossy_utf8(exit.stderr@);
                &&& stderr.len() <= 300 ==> message@ == "ffmpeg failed: "@ + stderr
                &&& stderr.len() > 300 ==> message@ == "ffmpeg failed: "@ + stderr.take(300)
            })
        }),
        proceeds(before, EncodeEvent::Exited(Err(cause)), after, step) ==> (
        step matches EncodeStep::Done { result } && (result matches Err(message) && message@
            == "ffmpeg wait failed: "@ + cause@)),
{
}

/// The capture stays the same through a run.
proof fn frames_stay(run: EncodingRun, i: int)
    requires
        run.is_run(),
        0 <= i <= run.steps.len(),
    ensures
        run.states[i].frames == run.states[0].frames,
    decreases i,
{
    if i > 0 {
        frames_stay(run, i - 1);
        assert(run.proceeds_at(i - 1));
    }
}

/// In every encoding, a frame is read from the file that it was spooled to.
pub proof fn frames_are_read_from_their_own_file(run: EncodingRun, k: int)
    requires
        run.is_run(),
        0 <= k < run.steps.len(),
        run.steps[k] is Load,
    ensures
        0 <= run.steps[k]->Load_page < run.states[0].frames.len(),
        run.steps[k]->file_name@ == run.states[0].frames[run.steps[k]->Load_page as int].file_name@,
{
    frames_stay(run, k);
    assert(run.proceeds_at(k));
}

/// Every slot is fed what was read last, without a failure, from the file of the
/// frame that was on screen at the slot's time: the last one that was captured by
/// then, or the first where none was. This holds of frames that were captured one
/// after another, and of times that do not go back.
pub proof fn slots_are_fed_the_file_of_the_latest_frame(run: EncodingRun, i: int, later: int)
    requires
        run.is_run(),
        forall|a: int, b: int|
            0 <= a <= b < run.states[0].frames.len() ==> (
            #[trigger] run.states[0].frames[a]).elapsed_nanos <= (
            #[trigger] run.states[0].frames[b]).elapsed_nanos,
        run.times_advance(),
        0 <= i < run.steps.len(),
        run.steps[i] is Write,
    ensures
        exists|k: int| #[trigger]
            read_last(run, k, i, run.steps[i]->Write_page as int) && k < i && (
            run.events[k + 1] matches EncodeEvent::Loaded(Ok(_))) && run.steps[k]->file_name@
                == run.states[0].frames[run.steps[i]->Write_page as int].file_name@,
        run.last_timed(i) matches Some(t) && 0 < t <= i && (
        run.events[t] matches EncodeEvent::Timed(elapsed_nanos) && {
            let frames = run.states[0].frames;
            let page = run.steps[i]->Write_page as int;
            &&& run.steps[t - 1] matches EncodeStep::Time { slot }
            &&& slot == run.feeds(i)
            &&& 0 <= page < frames.len()
            &&& page == 0 || frames[page].elapsed_nanos <= elapsed_nanos
            &&& page < later < frames.len() ==> frames[later].elapsed_nanos > elapsed_nanos
        }),
{
    let page = run.steps[i]->Write_page as int;
    fed_image_was_read_last(run, i);
    let k = choose|k: int| #[trigger]
        read_last(run, k, i, page) && k < i && (run.events[k + 1] matches EncodeEvent::Loaded(
            Ok(_),
        ));
    frames_are_read_from_their_own_file(run, k);
    assert(read_last(run, k, i, page) && run.steps[k]->file_name@
        == run.states[0].frames[page].file_name@);
    slots_are_fed_the_latest_frame(run, i);
}

} // verus!
