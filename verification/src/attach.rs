//! Attaching the recorder's own flattened session to the target behind a page
//! session.
//!
//! The session is published in the shared slot before the attachment is asked
//! for, so the `Target.attachedToTarget` that follows is recognised as the
//! recorder's.

use crate::command::{get_target_info, get_target_info_command, Command};
use crate::json::{as_text, json_of, member, Json};
use crate::session::{slot_owns, CaptureSession};
use crate::text::joined;
use serde_json::Value;
use vstd::prelude::*;

verus! {

/// A change of the shared slot.
pub enum SlotUpdate {
    /// Leave it as it is.
    Keep,
    /// An attachment to this target is in flight.
    Publish(String),
    /// The attachment in flight has this session.
    Confirm(String),
    /// There is no attachment.
    Clear,
}

impl SlotUpdate {
    /// What the change makes of a slot. A slot that was emptied in the meantime
    /// stays empty when an attachment is confirmed.
    pub open spec fn updates(
        self,
        before: Option<CaptureSession>,
        after: Option<CaptureSession>,
    ) -> bool {
        match self {
            SlotUpdate::Keep => after == before,
            SlotUpdate::Publish(target_id) => {
                &&& after matches Some(capture)
                &&& capture.target_id@ == target_id@
                &&& capture.session_id is None
            },
            SlotUpdate::Confirm(session_id) => match before {
                Some(published) => {
                    &&& after matches Some(capture)
                    &&& capture.target_id@ == published.target_id@
                    &&& capture.session_id matches Some(own)
                    &&& own@ == session_id@
                },
                None => after is None,
            },
            SlotUpdate::Clear => after is None,
        }
    }

    /// Makes the change.
    pub fn apply(self, slot: &mut Option<CaptureSession>)
        ensures
            self.updates(*old(slot), *final(slot)),
    {
        match self {
            SlotUpdate::Keep => {},
            SlotUpdate::Publish(target_id) => {
                *slot = Some(CaptureSession { target_id, session_id: None });
            },
            SlotUpdate::Confirm(session_id) => {
                if let Some(capture) = slot {
                    capture.session_id = Some(session_id);
                }
            },
            SlotUpdate::Clear => {
                *slot = None;
            },
        }
    }
}

/// What came of the last step.
pub enum AttachEvent {
    /// An attachment to the target behind a page session was asked for.
    Requested { page_session_id: String },
    /// The reply to the question for the target.
    TargetInfo(Result<Value, String>),
    /// The session of the attachment.
    Attached(Result<String, String>),
}

/// The command that attaches a session to a target.
pub struct AttachRequest {
    pub method: String,
    pub target_id: String,
    /// Whether the session shares the browser's own connection.
    pub flatten: bool,
    /// The session the command is addressed to; the browser itself without one.
    pub session: Option<String>,
}

impl AttachRequest {
    /// The browser itself is asked for a flattened session on `target`.
    pub open spec fn attaches_to(self, target: Seq<char>) -> bool {
        &&& self.method@ == "Target.attachToTarget"@
        &&& self.target_id@ == target
        &&& self.flatten
        &&& self.session is None
    }
}

/// What to do next.
pub enum AttachStep {
    /// Ask for the target.
    Query { command: Command },
    /// Change the slot, then attach to the target.
    Attach { update: SlotUpdate, request: AttachRequest },
    /// Change the slot; then the attachment is over.
    Done { update: SlotUpdate, result: Result<String, String> },
}

/// The target that a reply names.
pub open spec fn target_of(info: Json) -> Option<Seq<char>> {
    match info.member("targetInfo"@) {
        Some(target_info) => match target_info.member("targetId"@) {
            Some(target_id) => target_id.text(),
            None => None,
        },
        None => None,
    }
}

/// The step ends the attachment with this report and this change of the slot.
pub open spec fn gives_up(step: AttachStep, update: SlotUpdate, report: Seq<char>) -> bool {
    step matches AttachStep::Done { update: made, result } && made == update && (
    result matches Err(message) && message@ == report)
}

/// What follows on an event.
pub open spec fn attach_follows(event: AttachEvent, step: AttachStep) -> bool {
    match event {
        AttachEvent::Requested { page_session_id } => {
            &&& step matches AttachStep::Query { command }
            &&& command@ == get_target_info(page_session_id@)
        },
        AttachEvent::TargetInfo(Err(cause)) => gives_up(step, SlotUpdate::Keep, cause@),
        AttachEvent::TargetInfo(Ok(info)) => match target_of(json_of(info)) {
            Some(target) => {
                &&& step matches AttachStep::Attach { update, request }
                &&& update matches SlotUpdate::Publish(published)
                &&& published@ == target
                &&& request.attaches_to(target)
            },
            None => gives_up(step, SlotUpdate::Keep, "Failed to resolve recording target"@),
        },
        AttachEvent::Attached(Ok(session)) => {
            &&& step matches AttachStep::Done { update, result }
            &&& update matches SlotUpdate::Confirm(confirmed)
            &&& confirmed@ == session@
            &&& result matches Ok(session_id)
            &&& session_id@ == session@
        },
        AttachEvent::Attached(Err(cause)) => gives_up(
            step,
            SlotUpdate::Clear,
            "Failed to attach recording session: "@ + cause@,
        ),
    }
}

/// The target that a reply names.
pub fn resolve_target(info: &Value) -> (target: Option<String>)
    ensures
        match target {
            Some(target_id) => target_of(json_of(*info)) == Some(target_id@),
            None => target_of(json_of(*info)) is None,
        },
{
    match member(info, "targetInfo") {
        Some(target_info) => match member(target_info, "targetId") {
            Some(target_id) => match as_text(target_id) {
                Some(text) => Some(text.to_owned()),
                None => None,
            },
            None => None,
        },
        None => None,
    }
}

/// What follows on an event.
pub fn next_attach_step(event: AttachEvent) -> (step: AttachStep)
    ensures
        attach_follows(event, step),
{
    match event {
        AttachEvent::Requested { page_session_id } => AttachStep::Query {
            command: get_target_info_command(page_session_id.as_str()),
        },
        AttachEvent::TargetInfo(Err(cause)) => AttachStep::Done {
            update: SlotUpdate::Keep,
            result: Err(cause),
        },
        AttachEvent::TargetInfo(Ok(info)) => match resolve_target(&info) {
            Some(target_id) => AttachStep::Attach {
                update: SlotUpdate::Publish(target_id.clone()),
                request: AttachRequest {
                    method: "Target.attachToTarget".to_owned(),
                    target_id,
                    flatten: true,
                    session: None,
                },
            },
            None => AttachStep::Done {
                update: SlotUpdate::Keep,
                result: Err("Failed to resolve recording target".to_owned()),
            },
        },
        AttachEvent::Attached(Ok(session_id)) => AttachStep::Done {
            update: SlotUpdate::Confirm(session_id.clone()),
            result: Ok(session_id),
        },
        AttachEvent::Attached(Err(cause)) => AttachStep::Done {
            update: SlotUpdate::Clear,
            result: Err(joined("Failed to attach recording session: ", cause.as_str())),
        },
    }
}

/// The change of the slot that a step asks for.
pub open spec fn update_of(step: AttachStep) -> SlotUpdate {
    match step {
        AttachStep::Query { .. } => SlotUpdate::Keep,
        AttachStep::Attach { update, .. } => update,
        AttachStep::Done { update, .. } => update,
    }
}

/// While the attachment is in flight, the slot owns every attachment to its
/// target, under whatever session, and no other.
pub proof fn attachment_is_recognised_by_target_in_flight(
    info: Value,
    step: AttachStep,
    before: Option<CaptureSession>,
    after: Option<CaptureSession>,
    target_id: Seq<char>,
    session_id: Seq<char>,
)
    requires
        attach_follows(AttachEvent::TargetInfo(Ok(info)), step),
        step is Attach,
        update_of(step).updates(before, after),
    ensures
        slot_owns(after, target_id, session_id) <==> target_of(json_of(info)) == Some(target_id),
{
}

/// Once attached, the slot owns the attachment with its session and no other, so
/// not a later attachment to the same target.
pub proof fn attachment_is_recognised_by_session_once_attached(
    info: Value,
    published: AttachStep,
    session: String,
    attached: AttachStep,
    before: Option<CaptureSession>,
    in_flight: Option<CaptureSession>,
    after: Option<CaptureSession>,
    target_id: Seq<char>,
    session_id: Seq<char>,
)
    requires
        attach_follows(AttachEvent::TargetInfo(Ok(info)), published),
        published is Attach,
        update_of(published).updates(before, in_flight),
        attach_follows(AttachEvent::Attached(Ok(session)), attached),
        update_of(attached).updates(in_flight, after),
    ensures
        slot_owns(after, target_id, session_id) <==> session_id == session@,
{
}

/// After an attachment that failed, the slot owns nothing.
pub proof fn failed_attachment_owns_nothing(
    cause: String,
    step: AttachStep,
    before: Option<CaptureSession>,
    after: Option<CaptureSession>,
    target_id: Seq<char>,
    session_id: Seq<char>,
)
    requires
        attach_follows(AttachEvent::Attached(Err(cause)), step),
        update_of(step).updates(before, after),
    ensures
        !slot_owns(after, target_id, session_id),
{
}

/// A request to attach asks the browser for the target behind the page session.
pub proof fn attaching_begins_with_the_target(page_session_id: String, step: AttachStep)
    requires
        attach_follows(AttachEvent::Requested { page_session_id }, step),
    ensures
        step matches AttachStep::Query { command } && {
            &&& command.method@ == "Target.getTargetInfo"@
            &&& command.params is None
            &&& command.session matches Some(session)
            &&& session@ == page_session_id@
        },
{
}

/// A reply that names a target under `targetInfo` and `targetId`, whatever else
/// it holds, is followed by an attachment to that target: it is published as in
/// flight, and the browser itself is asked for a flattened session on it.
pub proof fn the_target_of_a_reply_is_attached_to(
    info: Value,
    step: AttachStep,
    outer: Map<Seq<char>, Json>,
    inner: Map<Seq<char>, Json>,
    target: Seq<char>,
)
    requires
        attach_follows(AttachEvent::TargetInfo(Ok(info)), step),
        json_of(info) == Json::Object(outer),
        outer.dom().contains("targetInfo"@),
        outer["targetInfo"@] == Json::Object(inner),
        inner.dom().contains("targetId"@),
        inner["targetId"@] == Json::Text(target),
    ensures
        target_of(json_of(info)) == Some(target),
        step matches AttachStep::Attach { update, request } && {
            &&& update matches SlotUpdate::Publish(published)
            &&& published@ == target
            &&& request.method@ == "Target.attachToTarget"@
            &&& request.target_id@ == target
            &&& request.flatten
            &&& request.session is None
        },
{
}

/// A reply that names no target there is the end of the attachment, and leaves
/// the slot as it was.
pub proof fn a_reply_without_a_target_is_reported(
    info: Value,
    step: AttachStep,
    before: Option<CaptureSession>,
    after: Option<CaptureSession>,
)
    requires
        attach_follows(AttachEvent::TargetInfo(Ok(info)), step),
        update_of(step).updates(before, after),
        !({
            &&& json_of(info) matches Json::Object(outer)
            &&& outer.dom().contains("targetInfo"@)
            &&& outer["targetInfo"@] matches Json::Object(inner)
            &&& inner.dom().contains("targetId"@)
            &&& inner["targetId"@] is Text
        }),
    ensures
        target_of(json_of(info)) is None,
        after == before,
        step matches AttachStep::Done { result, .. } && (result matches Err(message) && message@
            == "Failed to resolve recording target"@),
{
}

/// Where the target cannot be asked for, that error is the end of the
/// attachment, and leaves the slot as it was.
pub proof fn an_unanswered_question_is_passed_on(
    cause: String,
    step: AttachStep,
    before: Option<CaptureSession>,
    after: Option<CaptureSession>,
)
    requires
        attach_follows(AttachEvent::TargetInfo(Err(cause)), step),
        update_of(step).updates(before, after),
    ensures
        after == before,
        step matches AttachStep::Done { result, .. } && (result matches Err(message) && message@
            == cause@),
{
}

/// An attachment gives the session that it was given, and the slot then holds
/// that session on the target that it held before, or still nothing.
pub proof fn an_attachment_gives_its_session(
    session: String,
    step: AttachStep,
    before: Option<CaptureSession>,
    after: Option<CaptureSession>,
)
    requires
        attach_follows(AttachEvent::Attached(Ok(session)), step),
        update_of(step).updates(before, after),
    ensures
        step matches AttachStep::Done { result, .. } && (result matches Ok(session_id)
            && session_id@ == session@),
        before is None ==> after is None,
        before matches Some(published) ==> (after matches Some(capture) && {
            &&& capture.target_id@ == published.target_id@
            &&& capture.session_id matches Some(own)
            &&& own@ == session@
        }),
{
}

/// An attachment that failed is reported with its cause, and empties the slot.
pub proof fn a_failed_attachment_is_reported(
    cause: String,
    step: AttachStep,
    before: Option<CaptureSession>,
    after: Option<CaptureSession>,
)
    requires
        attach_follows(AttachEvent::Attached(Err(cause)), step),
        update_of(step).updates(before, after),
    ensures
        after is None,
        step matches AttachStep::Done { result, .. } && (result matches Err(message) && message@
            == "Failed to attach recording session: "@ + cause@),
{
}

/// Each change of the slot does what it says: nothing, an attachment in flight
/// to the target in place of whatever was there, the session for what was there,
/// or an empty slot.
pub proof fn slots_change_as_told(
    text: String,
    before: Option<CaptureSession>,
    after: Option<CaptureSession>,
)
    ensures
        SlotUpdate::Keep.updates(before, after) ==> after == before,
        SlotUpdate::Clear.updates(before, after) ==> after is None,
        SlotUpdate::Publish(text).updates(before, after) ==> (after matches Some(capture) && {
            &&& capture.target_id@ == text@
            &&& capture.session_id is None
        }),
        SlotUpdate::Confirm(text).updates(before, after) ==> {
            &&& before is None <==> after is None
            &&& before is Some ==> after->0.target_id@ == before->0.target_id@
            &&& before is Some ==> (after->0.session_id matches Some(own) && own@ == text@)
        },
{
}

} // verus!
