//! The DevTools commands that a recording sends.

use crate::json::{
    insert_member, json_of, no_members, object_value, signed_value, text_value, unsigned_value,
    Json,
};
use serde_json::Value;
use vstd::prelude::*;

verus! {

/// A DevTools command, ready to be sent.
pub struct Command {
    pub method: String,
    pub params: Option<Value>,
    /// The session the command is addressed to; the browser itself without one.
    pub session: Option<String>,
}

/// What a command says.
pub struct CommandModel {
    pub method: Seq<char>,
    pub params: Option<Json>,
    pub session: Option<Seq<char>>,
}

impl View for Command {
    type V = CommandModel;

    open spec fn view(&self) -> CommandModel {
        CommandModel {
            method: self.method@,
            params: match self.params {
                Some(params) => Some(json_of(params)),
                None => None,
            },
            session: match self.session {
                Some(session) => Some(session@),
                None => None,
            },
        }
    }
}

/// Asks for the target behind a page session.
pub open spec fn get_target_info(page_session: Seq<char>) -> CommandModel {
    CommandModel {
        method: "Target.getTargetInfo"@,
        params: None,
        session: Some(page_session),
    }
}

/// Starts a screencast of lossless frames on a session. Every frame is asked
/// for: Chrome skips frames by count, and a static page produces exactly one,
/// which a higher value would drop, leaving nothing to record.
pub open spec fn start_screencast(session: Seq<char>) -> CommandModel {
    CommandModel {
        method: "Page.startScreencast"@,
        params: Some(
            Json::Object(
                map![
                    "format"@ => Json::Text("png"@),
                    "everyNthFrame"@ => Json::Integer(1),
                ],
            ),
        ),
        session: Some(session),
    }
}

/// Acknowledges the screencast frame that carried the number `frame_session`.
pub open spec fn acknowledge_frame(session: Seq<char>, frame_session: int) -> CommandModel {
    CommandModel {
        method: "Page.screencastFrameAck"@,
        params: Some(Json::Object(map!["sessionId"@ => Json::Integer(frame_session)])),
        session: Some(session),
    }
}

/// Stops the screencast on a session.
pub open spec fn stop_screencast(session: Seq<char>) -> CommandModel {
    CommandModel { method: "Page.stopScreencast"@, params: None, session: Some(session) }
}

/// Detaches a session from its target.
pub open spec fn detach_session(session: Seq<char>) -> CommandModel {
    CommandModel {
        method: "Target.detachFromTarget"@,
        params: Some(Json::Object(map!["sessionId"@ => Json::Text(session)])),
        session: None,
    }
}

/// Asks for the target behind a page session.
pub fn get_target_info_command(page_session: &str) -> (command: Command)
    ensures
        command@ == get_target_info(page_session@),
{
    Command {
        method: "Target.getTargetInfo".to_owned(),
        params: None,
        session: Some(page_session.to_owned()),
    }
}

/// Starts a screencast of lossless frames on a session.
pub fn start_screencast_command(session: &str) -> (command: Command)
    ensures
        command@ == start_screencast(session@),
{
    let mut members = no_members();
    insert_member(&mut members, "format", text_value("png"));
    insert_member(&mut members, "everyNthFrame", unsigned_value(1));
    Command {
        method: "Page.startScreencast".to_owned(),
        params: Some(object_value(members)),
        session: Some(session.to_owned()),
    }
}

/// Acknowledges a screencast frame.
pub fn acknowledge_frame_command(session: &str, frame_session: i64) -> (command: Command)
    ensures
        command@ == acknowledge_frame(session@, frame_session as int),
{
    let mut members = no_members();
    insert_member(&mut members, "sessionId", signed_value(frame_session));
    Command {
        method: "Page.screencastFrameAck".to_owned(),
        params: Some(object_value(members)),
        session: Some(session.to_owned()),
    }
}

/// Stops the screencast on a session.
pub fn stop_screencast_command(session: &str) -> (command: Command)
    ensures
        command@ == stop_screencast(session@),
{
    Command {
        method: "Page.stopScreencast".to_owned(),
        params: None,
        session: Some(session.to_owned()),
    }
}

/// Detaches a session from its target.
pub fn detach_session_command(session: &str) -> (command: Command)
    ensures
        command@ == detach_session(session@),
{
    let mut members = no_members();
    insert_member(&mut members, "sessionId", text_value(session));
    Command {
        method: "Target.detachFromTarget".to_owned(),
        params: Some(object_value(members)),
        session: None,
    }
}

/// The question for a target names the page session and nothing else.
pub proof fn target_questions_go_to_the_page(command: Command, page_session: Seq<char>)
    requires
        command@ == get_target_info(page_session),
    ensures
        command.method@ == "Target.getTargetInfo"@,
        command.params is None,
        command.session matches Some(session) && session@ == page_session,
{
}

/// A screencast is started on its session, with lossless images and without a
/// frame left out, and nothing else is asked of it.
pub proof fn screencasts_start_with_every_frame(command: Command, capture_session: Seq<char>)
    requires
        command@ == start_screencast(capture_session),
    ensures
        command.method@ == "Page.startScreencast"@,
        command.session matches Some(session) && session@ == capture_session,
        command.params matches Some(params) && (json_of(params) matches Json::Object(members) && {
            &&& members.dom() == set!["format"@, "everyNthFrame"@]
            &&& members["format"@] == Json::Text("png"@)
            &&& members["everyNthFrame"@] == Json::Integer(1)
        }),
{
    reveal_strlit("format");
    reveal_strlit("everyNthFrame");
    assert("format"@.len() != "everyNthFrame"@.len());
    assert(json_of(command.params->0)->Object_0.dom() =~= set!["format"@, "everyNthFrame"@]);
}

/// An acknowledgement goes to the session of the screencast, and names the frame
/// by its number alone.
pub proof fn acknowledgements_name_their_frame(
    command: Command,
    capture_session: Seq<char>,
    frame_session: int,
)
    requires
        command@ == acknowledge_frame(capture_session, frame_session),
    ensures
        command.method@ == "Page.screencastFrameAck"@,
        command.session matches Some(session) && session@ == capture_session,
        command.params matches Some(params) && (json_of(params) matches Json::Object(members) && {
            &&& members.dom() == set!["sessionId"@]
            &&& members["sessionId"@] == Json::Integer(frame_session)
        }),
{
    assert(json_of(command.params->0)->Object_0.dom() =~= set!["sessionId"@]);
}

/// A screencast is stopped on its own session.
pub proof fn screencasts_stop_on_their_session(command: Command, capture_session: Seq<char>)
    requires
        command@ == stop_screencast(capture_session),
    ensures
        command.method@ == "Page.stopScreencast"@,
        command.params is None,
        command.session matches Some(session) && session@ == capture_session,
{
}

/// A session is detached by the browser itself, which is told the session.
pub proof fn sessions_are_detached_by_the_browser(command: Command, capture_session: Seq<char>)
    requires
        command@ == detach_session(capture_session),
    ensures
        command.method@ == "Target.detachFromTarget"@,
        command.session is None,
        command.params matches Some(params) && (json_of(params) matches Json::Object(members) && {
            &&& members.dom() == set!["sessionId"@]
            &&& members["sessionId"@] == Json::Text(capture_session)
        }),
{
    assert(json_of(command.params->0)->Object_0.dom() =~= set!["sessionId"@]);
}

} // verus!
