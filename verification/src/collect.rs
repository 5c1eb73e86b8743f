//! Collecting the frames of a screencast: what each event of the capture
//! session asks for, and what is kept of the frames that were spooled.

use crate::command::{
    acknowledge_frame, acknowledge_frame_command, acknowledgements_name_their_frame, Command,
    CommandModel,
};
use crate::json::{as_integer, as_text, json_of, member, Json};
use crate::schedule::{in_capture_order, spooling_keeps_capture_order};
use crate::text::{
    digits_value, joined, padding_fills_the_width, same_text, zero_padded, zero_padded_reads_back,
    zero_padded_text,
};
use serde_json::Value;
use vstd::prelude::*;

verus! {

/// A frame that was spooled to the recording's frame directory.
#[derive(Debug)]
pub struct CapturedVideoFrame {
    /// The frame's file in the directory.
    pub file_name: String,
    /// Nanoseconds from the start of the capture to the frame.
    pub elapsed_nanos: u128,
}

/// A finished capture.
#[derive(Debug)]
pub struct CapturedRecording {
    pub frames: Vec<CapturedVideoFrame>,
    /// Nanoseconds from the start of the capture to its end.
    pub duration_nanos: u128,
}

/// The file of the frame with this index: eight digits, or more where the index
/// has more.
pub open spec fn frame_file_name(index: nat) -> Seq<char> {
    "frame-"@ + zero_padded(index, 8) + ".png"@
}

/// Every frame has the file that goes with its place.
pub open spec fn filed_in_order(frames: Seq<CapturedVideoFrame>) -> bool {
    forall|i: int|
        0 <= i < frames.len() ==> #[trigger] frames[i].file_name@ == frame_file_name(i as nat)
}

/// `after` is `before` with one more frame, filed in its place.
pub open spec fn gains_frame(
    before: Seq<CapturedVideoFrame>,
    after: Seq<CapturedVideoFrame>,
    elapsed_nanos: u128,
) -> bool {
    &&& after.len() == before.len() + 1
    &&& after.drop_last() == before
    &&& after.last().file_name@ == frame_file_name(before.len())
    &&& after.last().elapsed_nanos == elapsed_nanos
}

impl CapturedRecording {
    /// A capture has a frame, and every frame has its own file.
    pub open spec fn wf(self) -> bool {
        self.frames@.len() > 0 && filed_in_order(self.frames@)
    }
}

/// What wakes the capture.
pub enum CaptureSignal<'a> {
    /// The recording was asked to stop.
    Cancelled,
    /// There will be no more events.
    Closed,
    /// An event of the capture session.
    Event { method: &'a str, params: &'a Value },
}

/// What to do about a signal: acknowledge first, then go on with `outcome`.
pub struct SignalPlan {
    /// Sent without waiting for its result, which is of no account.
    pub acknowledgement: Option<Command>,
    pub outcome: SignalOutcome,
}

pub enum SignalOutcome {
    /// Wait for the next signal.
    Continue,
    /// Write a frame's bytes to a file of the frame directory.
    Spool { file_name: String, bytes: Vec<u8> },
    /// The capture is over.
    Finish,
}

/// What a plan says.
pub struct PlanModel {
    pub acknowledgement: Option<CommandModel>,
    pub outcome: OutcomeModel,
}

pub enum OutcomeModel {
    Continue,
    Spool { file_name: Seq<char>, bytes: Seq<u8> },
    Finish,
}

impl View for SignalPlan {
    type V = PlanModel;

    open spec fn view(&self) -> PlanModel {
        PlanModel {
            acknowledgement: match self.acknowledgement {
                Some(command) => Some(command@),
                None => None,
            },
            outcome: match self.outcome {
                SignalOutcome::Continue => OutcomeModel::Continue,
                SignalOutcome::Spool { file_name, bytes } => OutcomeModel::Spool {
                    file_name: file_name@,
                    bytes: bytes@,
                },
                SignalOutcome::Finish => OutcomeModel::Finish,
            },
        }
    }
}

/// The bytes that a text encodes in base64 with the standard alphabet and
/// canonical padding, if it does.
pub uninterp spec fn standard_base64(text: Seq<char>) -> Option<Seq<u8>>;

/// `base64::Engine::decode` with `base64::engine::general_purpose::STANDARD`:
/// the decoded bytes, and `None` where the text is no such encoding. Which bytes
/// belong to which text is left to the crate.
#[verifier::external_body]
fn decode_base64(text: &str) -> (bytes: Option<Vec<u8>>)
    ensures
        match bytes {
            Some(decoded) => standard_base64(text@) == Some(decoded@),
            None => standard_base64(text@) is None,
        },
{
    base64::Engine::decode(&base64::engine::general_purpose::STANDARD, text).ok()
}

/// The image that the parameters of a screencast frame carry: what the string
/// under `data` decodes to.
pub open spec fn payload_of(params: Json) -> Option<Seq<u8>> {
    match params.member("data"@) {
        Some(data) => match data.text() {
            Some(text) => standard_base64(text),
            None => None,
        },
        None => None,
    }
}

/// The bytes of an optional payload.
pub open spec fn payload_bytes(payload: Option<Vec<u8>>) -> Option<Seq<u8>> {
    match payload {
        Some(bytes) => Some(bytes@),
        None => None,
    }
}

/// The acknowledgement that a screencast frame asks for: one with the number
/// under `sessionId`, where there is one that an `i64` can hold.
pub open spec fn acknowledgement_of(session: Seq<char>, params: Json) -> Option<CommandModel> {
    match params.member("sessionId"@) {
        Some(frame_session) => match frame_session.small_integer() {
            Some(n) => Some(acknowledge_frame(session, n)),
            None => None,
        },
        None => None,
    }
}

/// What an event asks for, on a session on which `captured` frames were spooled
/// so far, where the event carries `payload`.
pub open spec fn event_plan(
    session: Seq<char>,
    captured: nat,
    method: Seq<char>,
    params: Json,
    payload: Option<Seq<u8>>,
) -> PlanModel {
    if method == "Page.screencastFrame"@ {
        PlanModel {
            acknowledgement: acknowledgement_of(session, params),
            outcome: match payload {
                Some(bytes) => OutcomeModel::Spool { file_name: frame_file_name(captured), bytes },
                None => OutcomeModel::Continue,
            },
        }
    } else if method == "Inspector.detached"@ {
        PlanModel { acknowledgement: None, outcome: OutcomeModel::Finish }
    } else {
        PlanModel { acknowledgement: None, outcome: OutcomeModel::Continue }
    }
}

/// What a signal asks for.
pub open spec fn signal_plan(
    session: Seq<char>,
    captured: nat,
    signal: CaptureSignal,
) -> PlanModel {
    match signal {
        CaptureSignal::Event { method, params } => event_plan(
            session,
            captured,
            method@,
            json_of(*params),
            payload_of(json_of(*params)),
        ),
        _ => PlanModel { acknowledgement: None, outcome: OutcomeModel::Finish },
    }
}

/// The file of the frame with this index.
pub fn frame_file(index: usize) -> (name: String)
    ensures
        name@ == frame_file_name(index as nat),
{
    let digits = zero_padded_text(index as u64, 8);
    let stem = joined("frame-", digits.as_str());
    joined(stem.as_str(), ".png")
}

/// The image that the parameters of a screencast frame carry, decoded.
pub fn frame_payload(params: &Value) -> (payload: Option<Vec<u8>>)
    ensures
        payload_bytes(payload) == payload_of(json_of(*params)),
{
    match member(params, "data") {
        Some(data) => match as_text(data) {
            Some(text) => decode_base64(text),
            None => None,
        },
        None => None,
    }
}

/// The acknowledgement that a screencast frame asks for.
fn frame_acknowledgement(session: &str, params: &Value) -> (acknowledgement: Option<Command>)
    ensures
        match acknowledgement {
            Some(command) => acknowledgement_of(session@, json_of(*params)) == Some(command@),
            None => acknowledgement_of(session@, json_of(*params)) is None,
        },
{
    match member(params, "sessionId") {
        Some(frame_session) => match as_integer(frame_session) {
            Some(n) => Some(acknowledge_frame_command(session, n)),
            None => None,
        },
        None => None,
    }
}

/// The frames that a capture session has delivered so far.
pub struct FrameCollector {
    capture_session: String,
    frames: Vec<CapturedVideoFrame>,
}

impl FrameCollector {
    /// The session whose frames are collected.
    pub closed spec fn session(self) -> Seq<char> {
        self.capture_session@
    }

    /// The frames that were spooled, in order.
    pub closed spec fn frames(self) -> Seq<CapturedVideoFrame> {
        self.frames@
    }

    /// Every frame has the file that goes with its place.
    pub open spec fn wf(self) -> bool {
        filed_in_order(self.frames())
    }

    /// Nothing was spooled yet of this session.
    pub open spec fn is_fresh_for(self, session: Seq<char>) -> bool {
        self.session() == session && self.frames().len() == 0
    }

    /// `count` is the number of frames that were spooled.
    pub open spec fn has_captured(self, count: u64) -> bool {
        count == self.frames().len()
    }

    /// A collector without frames.
    pub fn new(capture_session: &str) -> (collector: FrameCollector)
        ensures
            collector.wf(),
            collector.session() == capture_session@,
            collector.frames() == Seq::<CapturedVideoFrame>::empty(),
            collector.is_fresh_for(capture_session@),
    {
        FrameCollector { capture_session: capture_session.to_owned(), frames: Vec::new() }
    }

    /// What an event asks for, given the image that it carries.
    pub fn plan_event(
        &self,
        method: &str,
        params: &Value,
        payload: Option<Vec<u8>>,
    ) -> (plan: SignalPlan)
        ensures
            plan@ == event_plan(
                self.session(),
                self.frames().len(),
                method@,
                json_of(*params),
                payload_bytes(payload),
            ),
    {
        if same_text(method, "Page.screencastFrame") {
            let acknowledgement = frame_acknowledgement(self.capture_session.as_str(), params);
            let outcome = match payload {
                Some(bytes) => SignalOutcome::Spool {
                    file_name: frame_file(self.frames.len()),
                    bytes,
                },
                None => SignalOutcome::Continue,
            };
            SignalPlan { acknowledgement, outcome }
        } else if same_text(method, "Inspector.detached") {
            SignalPlan { acknowledgement: None, outcome: SignalOutcome::Finish }
        } else {
            SignalPlan { acknowledgement: None, outcome: SignalOutcome::Continue }
        }
    }

    /// What a signal asks for. The capture is over when it is cancelled, when
    /// there are no more events, and when the recorded page was closed.
    pub fn observe(&self, signal: CaptureSignal) -> (plan: SignalPlan)
        ensures
            plan@ == signal_plan(self.session(), self.frames().len(), signal),
    {
        match signal {
            CaptureSignal::Event { method, params } => {
                let payload = if same_text(method, "Page.screencastFrame") {
                    frame_payload(params)
                } else {
                    None
                };
                self.plan_event(method, params, payload)
            },
            _ => SignalPlan { acknowledgement: None, outcome: SignalOutcome::Finish },
        }
    }

    /// Takes note of an attempt to spool a frame: a frame that was written joins
    /// the capture under the file that was planned for it, and a failure ends
    /// the capture.
    pub fn spooled(&mut self, written: Result<(), String>, elapsed_nanos: u128) -> (result: Result<
        (),
        String,
    >)
        ensures
            takes_note(*old(self), written, elapsed_nanos, *final(self), result),
            old(self).wf() ==> final(self).wf(),
    {
        match written {
            Ok(_) => {
                let file_name = frame_file(self.frames.len());
                self.frames.push(CapturedVideoFrame { file_name, elapsed_nanos });
                proof {
                    assert(self.frames@.drop_last() =~= old(self).frames@);
                }
                Ok(())
            },
            Err(cause) => Err(joined("Failed to spool recording frame: ", cause.as_str())),
        }
    }

    /// How many frames were spooled so far, which is how many distinct frames
    /// were received.
    pub fn captured(&self) -> (count: u64)
        ensures
            count == self.frames().len(),
            self.has_captured(count),
    {
        self.frames.len() as u64
    }

    /// Ends the capture, which must have a frame by then.
    pub fn finish(self, duration_nanos: u128) -> (result: Result<CapturedRecording, String>)
        ensures
            finishes(self, duration_nanos, result),
            self.wf() ==> (result matches Ok(capture) ==> capture.wf()),
    {
        if self.frames.len() == 0 {
            return Err("No frames captured".to_owned());
        }
        Ok(CapturedRecording { frames: self.frames, duration_nanos })
    }
}

/// What comes of an attempt to spool a frame: a frame that was written joins the
/// capture, and a failure is reported and adds nothing.
pub open spec fn takes_note(
    before: FrameCollector,
    written: Result<(), String>,
    elapsed_nanos: u128,
    after: FrameCollector,
    result: Result<(), String>,
) -> bool {
    &&& after.session() == before.session()
    &&& match written {
        Ok(_) => result is Ok && gains_frame(before.frames(), after.frames(), elapsed_nanos),
        Err(cause) => {
            &&& result matches Err(message)
            &&& message@ == "Failed to spool recording frame: "@ + cause@
            &&& after.frames() == before.frames()
        },
    }
}

/// What comes of the end of a capture: the frames and the time it took, or an
/// error where there is no frame.
pub open spec fn finishes(
    collector: FrameCollector,
    duration_nanos: u128,
    result: Result<CapturedRecording, String>,
) -> bool {
    match result {
        Ok(capture) => {
            &&& collector.frames().len() > 0
            &&& capture.frames@ == collector.frames()
            &&& capture.duration_nanos == duration_nanos
        },
        Err(message) => {
            &&& collector.frames().len() == 0
            &&& message@ == "No frames captured"@
        },
    }
}

/// The image that a signal carries: that of a screencast frame, decoded.
pub open spec fn image_of(signal: CaptureSignal) -> Option<Seq<u8>> {
    match signal {
        CaptureSignal::Event { method, params } => if method@ == "Page.screencastFrame"@ {
            payload_of(json_of(*params))
        } else {
            None
        },
        _ => None,
    }
}

/// A file and what was written to it.
pub struct SpooledFile {
    pub file_name: Seq<char>,
    pub bytes: Seq<u8>,
}

/// The course of a capture from its first signal to its last, in which every
/// frame could be written.
pub struct CaptureRun<'a> {
    /// The collector before each signal, and after the last.
    pub collectors: Seq<FrameCollector>,
    pub signals: Seq<CaptureSignal<'a>>,
    /// The clock, in nanoseconds, when the signal was dealt with.
    pub times: Seq<u128>,
}

impl<'a> CaptureRun<'a> {
    /// What signal `i` asks for.
    pub open spec fn plan(self, i: int) -> PlanModel {
        signal_plan(
            self.collectors[i].session(),
            self.collectors[i].frames().len(),
            self.signals[i],
        )
    }

    /// What signal `i` asks for is done. Only the last signal ends the capture.
    pub open spec fn proceeds_at(self, i: int) -> bool {
        match self.plan(i).outcome {
            OutcomeModel::Continue => self.collectors[i + 1] == self.collectors[i],
            OutcomeModel::Spool { .. } => takes_note(
                self.collectors[i],
                Ok(()),
                self.times[i],
                self.collectors[i + 1],
                Ok(()),
            ),
            OutcomeModel::Finish => self.collectors[i + 1] == self.collectors[i] && i + 1
                == self.signals.len(),
        }
    }

    /// The capture begins without frames, and what each signal asks for is done.
    pub open spec fn is_run(self) -> bool {
        &&& self.collectors.len() == self.signals.len() + 1
        &&& self.times.len() == self.signals.len()
        &&& self.collectors[0].frames().len() == 0
        &&& forall|i: int| 0 <= i < self.signals.len() ==> #[trigger] self.proceeds_at(i)
    }

    /// The images that the first `count` signals carry, in order.
    pub open spec fn images(self, count: int) -> Seq<Seq<u8>>
        decreases count,
    {
        if count <= 0 {
            Seq::empty()
        } else {
            match image_of(self.signals[count - 1]) {
                Some(image) => self.images(count - 1).push(image),
                None => self.images(count - 1),
            }
        }
    }

    /// The files that the first `count` signals ask to be written, in order.
    pub open spec fn files(self, count: int) -> Seq<SpooledFile>
        decreases count,
    {
        if count <= 0 {
            Seq::empty()
        } else {
            match self.plan(count - 1).outcome {
                OutcomeModel::Spool { file_name, bytes } => self.files(count - 1).push(
                    SpooledFile { file_name, bytes },
                ),
                _ => self.files(count - 1),
            }
        }
    }

    /// The clock does not go back, and the capture ends no earlier than its last
    /// signal.
    pub open spec fn clock_advances(self, duration_nanos: u128) -> bool {
        &&& forall|i: int, j: int|
            0 <= i <= j < self.times.len() ==> self.times[i] <= self.times[j]
        &&& forall|i: int| 0 <= i < self.times.len() ==> self.times[i] <= duration_nanos
    }

    /// The frames that were kept in the end.
    pub open spec fn kept(self) -> Seq<CapturedVideoFrame> {
        self.collectors[self.signals.len() as int].frames()
    }
}

/// After each signal, there is a file and a frame for every image so far.
proof fn images_are_kept_so_far(run: CaptureRun, count: int)
    requires
        run.is_run(),
        0 <= count <= run.signals.len(),
    ensures
        run.collectors[count].session() == run.collectors[0].session(),
        run.collectors[count].frames().len() == run.images(count).len(),
        filed_in_order(run.collectors[count].frames()),
        run.files(count).len() == run.images(count).len(),
        forall|k: int|
            0 <= k < run.images(count).len() ==> {
                &&& (#[trigger] run.files(count)[k]).file_name == frame_file_name(k as nat)
                &&& run.files(count)[k].bytes == run.images(count)[k]
            },
    decreases count,
{
    if count > 0 {
        let last = count - 1;
        images_are_kept_so_far(run, last);
        assert(run.proceeds_at(last));
        let before = run.collectors[last].frames();
        let after = run.collectors[count].frames();
        if run.plan(last).outcome is Spool {
            assert forall|i: int| 0 <= i < after.len() implies #[trigger] after[i].file_name@
                == frame_file_name(i as nat) by {
                if i < before.len() {
                    assert(after.drop_last()[i] == after[i]);
                    assert(before[i].file_name@ == frame_file_name(i as nat));
                }
            }
        }
    }
}

/// A capture keeps exactly the images of the screencast frames that came before
/// its end, in order: image `k` is written to the file of frame `k`, frame `k` is
/// kept under that file, and nothing else is written or kept.
pub proof fn a_capture_keeps_every_image(run: CaptureRun, k: int)
    requires
        run.is_run(),
    ensures
        run.kept().len() == run.images(run.signals.len() as int).len(),
        run.files(run.signals.len() as int).len() == run.images(run.signals.len() as int).len(),
        0 <= k < run.kept().len() ==> {
            let count = run.signals.len() as int;
            &&& run.files(count)[k].bytes == run.images(count)[k]
            &&& run.files(count)[k].file_name == frame_file_name(k as nat)
            &&& run.kept()[k].file_name@ == frame_file_name(k as nat)
        },
{
    images_are_kept_so_far(run, run.signals.len() as int);
}

/// A capture succeeds where a screencast frame brought an image, and only there.
pub proof fn a_capture_succeeds_with_an_image(
    run: CaptureRun,
    duration_nanos: u128,
    result: Result<CapturedRecording, String>,
)
    requires
        run.is_run(),
        finishes(run.collectors[run.signals.len() as int], duration_nanos, result),
    ensures
        result is Ok <==> run.images(run.signals.len() as int).len() > 0,
        result matches Ok(capture) ==> capture.wf() && capture.frames@ == run.kept(),
{
    images_are_kept_so_far(run, run.signals.len() as int);
}

/// The frames so far are in the order in which they were captured, each of them
/// at the time of one of the signals so far.
proof fn frames_are_in_order_so_far(run: CaptureRun, duration_nanos: u128, count: int)
    requires
        run.is_run(),
        run.clock_advances(duration_nanos),
        0 <= count <= run.signals.len(),
    ensures
        in_capture_order(run.collectors[count].frames()),
        forall|k: int|
            0 <= k < run.collectors[count].frames().len() ==> {
                &&& count > 0
                &&& (#[trigger] run.collectors[count].frames()[k]).elapsed_nanos
                    <= run.times[count - 1]
            },
    decreases count,
{
    if count > 0 {
        let last = count - 1;
        frames_are_in_order_so_far(run, duration_nanos, last);
        assert(run.proceeds_at(last));
        let before = run.collectors[last].frames();
        let after = run.collectors[count].frames();
        if run.plan(last).outcome is Spool {
            if before.len() > 0 {
                assert(before.last().elapsed_nanos <= run.times[last - 1]);
            }
            spooling_keeps_capture_order(before, after, run.times[last]);
        }
        assert forall|k: int| 0 <= k < after.len() implies (#[trigger] after[k]).elapsed_nanos
            <= run.times[last] by {
            if k < before.len() {
                if run.plan(last).outcome is Spool {
                    assert(after.drop_last()[k] == after[k]);
                }
                assert(before[k].elapsed_nanos <= run.times[last - 1]);
            }
        }
    }
}

/// With a clock that does not go back, the frames of a capture are in the order
/// in which they were captured, and none is later than the capture's end.
pub proof fn a_capture_is_in_order(run: CaptureRun, duration_nanos: u128, k: int)
    requires
        run.is_run(),
        run.clock_advances(duration_nanos),
    ensures
        in_capture_order(run.kept()),
        0 <= k < run.kept().len() ==> run.kept()[k].elapsed_nanos <= duration_nanos,
{
    frames_are_in_order_so_far(run, duration_nanos, run.signals.len() as int);
}

/// Two places never share a file.
proof fn file_names_are_distinct(i: nat, j: nat)
    requires
        i != j,
    ensures
        frame_file_name(i) != frame_file_name(j),
{
    let head = "frame-"@.len() as int;
    let tail = ".png"@.len() as int;
    let left = zero_padded(i, 8);
    let right = zero_padded(j, 8);
    zero_padded_reads_back(i, 8);
    zero_padded_reads_back(j, 8);
    if frame_file_name(i) == frame_file_name(j) {
        let name = frame_file_name(i);
        assert(left =~= name.subrange(head, name.len() - tail));
        assert(right =~= name.subrange(head, name.len() - tail));
    }
}

/// No two frames of a capture share a file, so no frame overwrites another.
pub proof fn frames_have_their_own_files(frames: Seq<CapturedVideoFrame>, i: int, j: int)
    requires
        filed_in_order(frames),
        0 <= i < j < frames.len(),
    ensures
        frames[i].file_name@ != frames[j].file_name@,
{
    file_names_are_distinct(i as nat, j as nat);
}

/// A frame joins the capture under the file that it was planned to be written
/// to, and that file holds none of the earlier frames.
pub proof fn frames_are_recorded_where_they_are_spooled(
    before: FrameCollector,
    after: FrameCollector,
    signal: CaptureSignal,
    elapsed_nanos: u128,
)
    requires
        before.wf(),
        gains_frame(before.frames(), after.frames(), elapsed_nanos),
        signal_plan(before.session(), before.frames().len(), signal).outcome is Spool,
    ensures
        signal_plan(before.session(), before.frames().len(), signal).outcome->file_name
            == after.frames().last().file_name@,
        forall|i: int|
            0 <= i < before.frames().len() ==> #[trigger] before.frames()[i].file_name@
                != after.frames().last().file_name@,
{
    assert forall|i: int|
        0 <= i < before.frames().len() implies #[trigger] before.frames()[i].file_name@
        != after.frames().last().file_name@ by {
        file_names_are_distinct(i as nat, before.frames().len());
    }
}

/// A frame's file is named by its place: eight digits at least, between a fixed
/// start and a fixed end.
pub proof fn files_are_named_by_place(index: nat)
    ensures
        frame_file_name(index) == "frame-"@ + zero_padded(index, 8) + ".png"@,
        frame_file_name(index).len() >= 18,
        digits_value(frame_file_name(index).subrange(6, frame_file_name(index).len() - 4))
            == index,
{
    reveal_strlit("frame-");
    reveal_strlit(".png");
    zero_padded_reads_back(index, 8);
    padding_fills_the_width(index, 8);
    let name = frame_file_name(index);
    assert(name.subrange(6, name.len() - 4) =~= zero_padded(index, 8));
}

/// What a capture holds is filed place by place.
pub proof fn filing_goes_by_place(frames: Seq<CapturedVideoFrame>, i: int)
    requires
        0 <= i < frames.len(),
        filed_in_order(frames),
    ensures
        frames[i].file_name@ == "frame-"@ + zero_padded(i as nat, 8) + ".png"@,
{
    assert(frames[i].file_name@ == frame_file_name(i as nat));
}

/// A frame that was written joins at the end, with its time and under the file of
/// its place; the earlier frames stay as they are. A frame that could not be
/// written leaves the capture as it is and is reported with its cause.
pub proof fn written_frames_join_at_the_end(
    before: FrameCollector,
    written: Result<(), String>,
    elapsed_nanos: u128,
    after: FrameCollector,
    result: Result<(), String>,
)
    requires
        takes_note(before, written, elapsed_nanos, after, result),
    ensures
        after.session() == before.session(),
        forall|i: int|
            0 <= i < before.frames().len() ==> #[trigger] after.frames()[i] == before.frames()[i],
        written is Ok ==> {
            let place = before.frames().len() as int;
            &&& result is Ok
            &&& after.frames().len() == place + 1
            &&& after.frames()[place].elapsed_nanos == elapsed_nanos
            &&& after.frames()[place].file_name@ == "frame-"@ + zero_padded(place as nat, 8)
                + ".png"@
        },
        written matches Err(cause) ==> {
            &&& after.frames().len() == before.frames().len()
            &&& result matches Err(message)
            &&& message@ == "Failed to spool recording frame: "@ + cause@
        },
{
    if written is Ok {
        assert forall|i: int| 0 <= i < before.frames().len() implies #[trigger] after.frames()[i]
            == before.frames()[i] by {
            assert(after.frames().drop_last()[i] == after.frames()[i]);
        }
    }
}

/// A capture that has a frame takes as long as the clock says at its end, however
/// many frames it has and whenever they came; one without is an error.
pub proof fn a_capture_takes_until_its_end(
    collector: FrameCollector,
    duration_nanos: u128,
    result: Result<CapturedRecording, String>,
)
    requires
        finishes(collector, duration_nanos, result),
    ensures
        collector.frames().len() > 0 ==> (result matches Ok(capture) && {
            &&& capture.duration_nanos == duration_nanos
            &&& capture.frames@.len() == collector.frames().len()
            &&& forall|i: int|
                0 <= i < capture.frames@.len() ==> #[trigger] capture.frames@[i]
                    == collector.frames()[i]
        }),
        collector.frames().len() == 0 ==> (result matches Err(message) && message@
            == "No frames captured"@),
{
}

/// Two captures that end at the same time take as long, whatever each has kept.
pub proof fn captures_that_end_together_take_as_long(
    one: FrameCollector,
    other: FrameCollector,
    duration_nanos: u128,
    one_capture: CapturedRecording,
    other_capture: CapturedRecording,
)
    requires
        finishes(one, duration_nanos, Ok(one_capture)),
        finishes(other, duration_nanos, Ok(other_capture)),
    ensures
        one_capture.duration_nanos == other_capture.duration_nanos,
{
}

/// With a clock that does not go back, nothing in a capture is later than the
/// time that the capture says it took: no frame that was kept, and no signal.
pub proof fn nothing_is_later_than_the_capture(
    run: CaptureRun,
    duration_nanos: u128,
    capture: CapturedRecording,
    k: int,
    i: int,
)
    requires
        run.is_run(),
        run.clock_advances(duration_nanos),
        finishes(run.collectors[run.signals.len() as int], duration_nanos, Ok(capture)),
    ensures
        capture.duration_nanos == duration_nanos,
        0 <= k < capture.frames@.len() ==> capture.frames@[k].elapsed_nanos
            <= capture.duration_nanos,
        0 <= i < run.signals.len() ==> run.times[i] <= capture.duration_nanos,
{
    a_capture_is_in_order(run, duration_nanos, k);
}

/// A capture is over when it is cancelled, when there are no more events, and
/// when the recorded page was closed. Nothing is acknowledged then.
pub proof fn captures_end_when_told(
    session: Seq<char>,
    captured: nat,
    signal: CaptureSignal,
    plan: SignalPlan,
)
    requires
        plan@ == signal_plan(session, captured, signal),
        signal is Cancelled || signal is Closed || (signal matches CaptureSignal::Event {
            method,
            ..
        } && method@ == "Inspector.detached"@),
    ensures
        plan.outcome is Finish,
        plan.acknowledgement is None,
{
    reveal_strlit("Inspector.detached");
    reveal_strlit("Page.screencastFrame");
    assert("Inspector.detached"@.len() != "Page.screencastFrame"@.len());
}

/// Other events than a frame and the end are passed over.
pub proof fn other_events_are_passed_over(
    session: Seq<char>,
    captured: nat,
    method: &str,
    params: &Value,
    plan: SignalPlan,
)
    requires
        plan@ == signal_plan(session, captured, CaptureSignal::Event { method, params }),
        method@ != "Page.screencastFrame"@,
        method@ != "Inspector.detached"@,
    ensures
        plan.outcome is Continue,
        plan.acknowledgement is None,
{
}

/// A screencast frame with an image is written, byte for byte, to the file of
/// the next place; one without an image is passed over. Whether a frame is
/// acknowledged has nothing to do with it.
pub proof fn frames_are_written_as_they_came(
    session: Seq<char>,
    captured: nat,
    params: &Value,
    members: Map<Seq<char>, Json>,
    signal: CaptureSignal,
    plan: SignalPlan,
)
    requires
        signal matches CaptureSignal::Event { method, params: own } && method@
            == "Page.screencastFrame"@ && own == params,
        plan@ == signal_plan(session, captured, signal),
        json_of(*params) == Json::Object(members),
    ensures
        (members.dom().contains("data"@) && (members["data"@] matches Json::Text(text)
            && standard_base64(text) is Some)) ==> (plan.outcome matches SignalOutcome::Spool {
            file_name,
            bytes,
        } && {
            &&& Some(bytes@) == standard_base64(members["data"@]->Text_0)
            &&& file_name@ == "frame-"@ + zero_padded(captured, 8) + ".png"@
        }),
        !(members.dom().contains("data"@) && (members["data"@] matches Json::Text(text)
            && standard_base64(text) is Some)) ==> plan.outcome is Continue,
{
}

/// A screencast frame that carries an integer of sixty-four bits under
/// `sessionId` is acknowledged with it, on the session that is captured, and no
/// other frame is. Whether it has an image has nothing to do with it.
pub proof fn frames_are_acknowledged_by_number(
    session: Seq<char>,
    captured: nat,
    params: &Value,
    members: Map<Seq<char>, Json>,
    signal: CaptureSignal,
    plan: SignalPlan,
)
    requires
        signal matches CaptureSignal::Event { method, params: own } && method@
            == "Page.screencastFrame"@ && own == params,
        plan@ == signal_plan(session, captured, signal),
        json_of(*params) == Json::Object(members),
    ensures
        (members.dom().contains("sessionId"@) && (members["sessionId"@] matches Json::Integer(n)
            && -0x8000_0000_0000_0000 <= n <= 0x7fff_ffff_ffff_ffff)) ==> (
        plan.acknowledgement matches Some(command) && {
            &&& command.method@ == "Page.screencastFrameAck"@
            &&& command.session matches Some(addressee)
            &&& addressee@ == session
            &&& command.params matches Some(given)
            &&& json_of(given) matches Json::Object(numbered)
            &&& numbered.dom() == set!["sessionId"@]
            &&& numbered["sessionId"@] == members["sessionId"@]
        }),
        !(members.dom().contains("sessionId"@) && (members["sessionId"@] matches Json::Integer(n)
            && -0x8000_0000_0000_0000 <= n <= 0x7fff_ffff_ffff_ffff))
            ==> plan.acknowledgement is None,
{
    if let Some(command) = plan.acknowledgement {
        acknowledgements_name_their_frame(
            command,
            session,
            members["sessionId"@]->Integer_0,
        );
    }
}

/// A screencast frame whose parameters are no object has neither a number nor an
/// image.
pub proof fn frames_without_members_are_passed_over(
    session: Seq<char>,
    captured: nat,
    params: &Value,
    signal: CaptureSignal,
    plan: SignalPlan,
)
    requires
        signal matches CaptureSignal::Event { method, params: own } && method@
            == "Page.screencastFrame"@ && own == params,
        plan@ == signal_plan(session, captured, signal),
        !(json_of(*params) is Object),
    ensures
        plan.outcome is Continue,
        plan.acknowledgement is None,
{
}

/// An event is planned for by its method alone, where its image is handed in: a
/// frame's image is written as it is handed in, the end of the page ends the
/// capture, and anything else is passed over.
pub proof fn events_are_planned_for_by_method(
    session: Seq<char>,
    captured: nat,
    method: Seq<char>,
    params: Json,
    payload: Option<Vec<u8>>,
    plan: SignalPlan,
)
    requires
        plan@ == event_plan(session, captured, method, params, payload_bytes(payload)),
    ensures
        method == "Page.screencastFrame"@ && payload is Some ==> (
        plan.outcome matches SignalOutcome::Spool { file_name, bytes } && {
            &&& bytes@ == payload->0@
            &&& file_name@ == "frame-"@ + zero_padded(captured, 8) + ".png"@
        }),
        method == "Page.screencastFrame"@ && payload is None ==> plan.outcome is Continue,
        method == "Inspector.detached"@ ==> plan.outcome is Finish,
        method != "Page.screencastFrame"@ ==> plan.acknowledgement is None,
        method != "Page.screencastFrame"@ && method != "Inspector.detached"@
            ==> plan.outcome is Continue,
{
    reveal_strlit("Inspector.detached");
    reveal_strlit("Page.screencastFrame");
    assert("Inspector.detached"@.len() != "Page.screencastFrame"@.len());
}

/// The image of a frame is what the string under `data` decodes to, and there is
/// none without such a string.
pub proof fn images_stand_under_data(params: Json, payload: Option<Vec<u8>>)
    requires
        payload_bytes(payload) == payload_of(params),
    ensures
        payload is Some <==> ({
            &&& params matches Json::Object(members)
            &&& members.dom().contains("data"@)
            &&& members["data"@] matches Json::Text(text)
            &&& standard_base64(text) is Some
        }),
        payload matches Some(bytes) ==> Some(bytes@) == standard_base64(
            params->Object_0["data"@]->Text_0,
        ),
{
}

/// The image that counts for a signal is that of a screencast frame, and of no
/// other signal.
pub proof fn images_come_with_screencast_frames(signal: CaptureSignal)
    ensures
        image_of(signal) matches Some(image) ==> (signal matches CaptureSignal::Event {
            method,
            params,
        } && {
            &&& method@ == "Page.screencastFrame"@
            &&& json_of(*params) matches Json::Object(members)
            &&& members.dom().contains("data"@)
            &&& members["data"@] matches Json::Text(text)
            &&& standard_base64(text) == Some(image)
        }),
{
}

/// Whether and how a frame is acknowledged rests on its session and its own
/// parameters, not on its image nor on the frames before it.
pub proof fn acknowledgements_rest_on_parameters_alone(
    session: Seq<char>,
    captured: nat,
    other_captured: nat,
    method: Seq<char>,
    params: Json,
    payload: Option<Seq<u8>>,
    other_payload: Option<Seq<u8>>,
)
    ensures
        event_plan(session, captured, method, params, payload).acknowledgement == event_plan(
            session,
            other_captured,
            method,
            params,
            other_payload,
        ).acknowledgement,
{
}

/// A collector begins with its session and without frames, and counts one more
/// for each frame that was written, and none for one that was not.
pub proof fn collectors_count_what_was_written(
    session: Seq<char>,
    fresh: FrameCollector,
    before: FrameCollector,
    count: u64,
    written: Result<(), String>,
    elapsed_nanos: u128,
    after: FrameCollector,
    result: Result<(), String>,
    next: u64,
)
    requires
        fresh.is_fresh_for(session),
        before.has_captured(count),
        takes_note(before, written, elapsed_nanos, after, result),
        after.has_captured(next),
    ensures
        fresh.session() == session,
        fresh.has_captured(0),
        written is Ok ==> next == count + 1,
        written is Err ==> next == count,
        count == before.frames().len(),
{
}

} // verus!
