//! The recorder's own session on the page target, and the slot in which the
//! daemon's event handlers look it up.

use crate::text::same_text;
use std::sync::{Arc, Mutex};
use vstd::prelude::*;

verus! {

/// The CDP session a recording attaches to its page target for its screencast.
///
/// Chrome keeps one screencast per session and the live stream already runs
/// one on the page session, so the recorder attaches a second flattened
/// session to the same target. The daemon's event handlers use this to avoid
/// treating that attachment as a tab.
#[derive(Clone, Debug, PartialEq, Eq)]
pub struct CaptureSession {
    pub target_id: String,
    /// `None` while `Target.attachToTarget` is in flight: Chrome emits
    /// `Target.attachedToTarget` before it answers, so in that window the
    /// attachment is recognised by target instead.
    pub session_id: Option<String>,
}

impl CaptureSession {
    /// Once attached, the recorder's attachment is the one with its session;
    /// until then, any attachment to its target.
    pub open spec fn owns(self, target_id: Seq<char>, session_id: Seq<char>) -> bool {
        match self.session_id {
            Some(own) => own@ == session_id,
            None => self.target_id@ == target_id,
        }
    }

    /// Whether a `Target.attachedToTarget` event is this recorder's own
    /// attachment rather than a tab the daemon should track.
    pub fn owns_attachment(&self, target_id: &str, session_id: &str) -> (owned: bool)
        ensures
            owned == self.owns(target_id@, session_id@),
    {
        match &self.session_id {
            Some(own) => same_text(own.as_str(), session_id),
            None => same_text(self.target_id.as_str(), target_id),
        }
    }
}

/// Whether the session in a slot, if there is one, owns an attachment.
pub open spec fn slot_owns(
    slot: Option<CaptureSession>,
    target_id: Seq<char>,
    session_id: Seq<char>,
) -> bool {
    match slot {
        Some(capture) => capture.owns(target_id, session_id),
        None => false,
    }
}

/// [`CaptureSession::owns_attachment`] on the contents of a slot: an empty slot
/// owns nothing.
pub fn slot_owns_attachment(
    slot: &Option<CaptureSession>,
    target_id: &str,
    session_id: &str,
) -> (owned: bool)
    ensures
        owned == slot_owns(*slot, target_id@, session_id@),
{
    match slot {
        Some(capture) => capture.owns_attachment(target_id, session_id),
        None => false,
    }
}

/// A lock of the standard library. Another holder may change what it guards at
/// any time, so a lock stands for no contents.
#[verifier::external_type_specification]
#[verifier::external_body]
#[verifier::reject_recursive_types(T)]
pub struct ExMutex<T: ?Sized>(std::sync::Mutex<T>);

/// The slot, as the recorder and the daemon's event handlers share it.
pub type SharedCaptureSession = Arc<Mutex<Option<CaptureSession>>>;

/// What one attempt to lock the slot found.
pub enum SlotReading {
    /// The contents.
    Held(Option<CaptureSession>),
    /// A holder panicked, so there is nothing to go by.
    Poisoned,
}

impl SlotReading {
    /// Whether what was found owns an attachment.
    pub open spec fn owns(self, target_id: Seq<char>, session_id: Seq<char>) -> bool {
        match self {
            SlotReading::Held(slot) => slot_owns(slot, target_id, session_id),
            SlotReading::Poisoned => false,
        }
    }

    /// Whether what was found owns an attachment: a poisoned lock owns nothing.
    pub fn owns_attachment(&self, target_id: &str, session_id: &str) -> (owned: bool)
        ensures
            owned == self.owns(target_id@, session_id@),
    {
        match self {
            SlotReading::Held(slot) => slot_owns_attachment(slot, target_id, session_id),
            SlotReading::Poisoned => false,
        }
    }
}

/// What a slot was made with.
pub uninterp spec fn made_with(slot: Mutex<Option<CaptureSession>>) -> Option<CaptureSession>;

/// That an attempt to lock `slot` has, at some time, found `reading`. It says
/// nothing of what another attempt finds.
pub uninterp spec fn has_read(slot: Mutex<Option<CaptureSession>>, reading: SlotReading) -> bool;

/// `std::sync::Mutex::new`: a lock around `contents`.
#[verifier::external_body]
fn slot_around(contents: Option<CaptureSession>) -> (slot: Mutex<Option<CaptureSession>>)
    ensures
        made_with(slot) == contents,
{
    Mutex::new(contents)
}

/// `std::sync::Mutex::lock`: a copy of what the lock guards at that moment, or
/// that it is poisoned. Which of them comes back rests on the other holders, so
/// the contract only records that this attempt found it. The call waits for the
/// other holders, and must not be made by a thread that holds the lock.
#[verifier::external_body]
fn read_slot(slot: &Mutex<Option<CaptureSession>>) -> (reading: SlotReading)
    ensures
        has_read(*slot, reading),
{
    match slot.lock() {
        Ok(contents) => SlotReading::Held(contents.clone()),
        Err(_) => SlotReading::Poisoned,
    }
}

/// A shared slot that holds no session.
pub fn empty_slot() -> (shared: SharedCaptureSession)
    ensures
        made_with(*shared) is None,
{
    Arc::new(slot_around(None))
}

/// A lookup answers as what the slot was found to hold does.
pub open spec fn looked_up(
    slot: Mutex<Option<CaptureSession>>,
    target_id: Seq<char>,
    session_id: Seq<char>,
    owned: bool,
) -> bool {
    exists|reading: SlotReading| #[trigger]
        has_read(slot, reading) && owned == reading.owns(target_id, session_id)
}

/// [`CaptureSession::owns_attachment`] against the shared slot: the answer is
/// the one that goes with what the slot was found to hold.
pub fn owns_attachment(
    shared: &SharedCaptureSession,
    target_id: &str,
    session_id: &str,
) -> (owned: bool)
    ensures
        exists|reading: SlotReading| #[trigger]
            has_read(**shared, reading) && owned == reading.owns(target_id@, session_id@),
        looked_up(**shared, target_id@, session_id@, owned),
{
    let reading = read_slot(&**shared);
    reading.owns_attachment(target_id, session_id)
}

/// Once attached, the recorder owns the attachment with its own session, to
/// whatever target, and no other: not a tab that is opened while it records. The
/// session, the slot that holds it and a reading of that slot all answer so.
pub proof fn attached_sessions_own_their_session_only(
    capture: CaptureSession,
    own: String,
    target_id: Seq<char>,
    session_id: Seq<char>,
)
    requires
        capture.session_id == Some(own),
    ensures
        capture.owns(target_id, session_id) <==> session_id == own@,
        slot_owns(Some(capture), target_id, session_id) <==> session_id == own@,
        SlotReading::Held(Some(capture)).owns(target_id, session_id) <==> session_id == own@,
{
}

/// While the attachment is in flight, the recorder owns every attachment to its
/// target, under whatever session, and no other.
pub proof fn sessions_in_flight_own_their_target_only(
    capture: CaptureSession,
    target_id: Seq<char>,
    session_id: Seq<char>,
)
    requires
        capture.session_id is None,
    ensures
        capture.owns(target_id, session_id) <==> target_id == capture.target_id@,
        slot_owns(Some(capture), target_id, session_id) <==> target_id == capture.target_id@,
        SlotReading::Held(Some(capture)).owns(target_id, session_id) <==> target_id
            == capture.target_id@,
{
}

/// Without a session in the slot, and with a slot that cannot be read, every
/// attachment is a tab.
pub proof fn empty_slots_own_nothing(target_id: Seq<char>, session_id: Seq<char>)
    ensures
        !slot_owns(None, target_id, session_id),
        !SlotReading::Held(None).owns(target_id, session_id),
        !SlotReading::Poisoned.owns(target_id, session_id),
{
}

/// The answer of the shared lookup, of a slot that is only ever found to hold
/// one attached session: it is that session's, and nothing else is.
pub proof fn lookups_recognise_an_attached_session(
    slot: Mutex<Option<CaptureSession>>,
    capture: CaptureSession,
    own: String,
    target_id: Seq<char>,
    session_id: Seq<char>,
    owned: bool,
)
    requires
        capture.session_id == Some(own),
        forall|reading: SlotReading| #[trigger]
            has_read(slot, reading) ==> reading == SlotReading::Held(Some(capture)),
        looked_up(slot, target_id, session_id, owned),
    ensures
        owned <==> session_id == own@,
{
}

/// The answer of the shared lookup, of a slot that is only ever found to hold
/// one attachment in flight: it is whatever attaches to that target.
pub proof fn lookups_recognise_a_target_in_flight(
    slot: Mutex<Option<CaptureSession>>,
    capture: CaptureSession,
    target_id: Seq<char>,
    session_id: Seq<char>,
    owned: bool,
)
    requires
        capture.session_id is None,
        forall|reading: SlotReading| #[trigger]
            has_read(slot, reading) ==> reading == SlotReading::Held(Some(capture)),
        looked_up(slot, target_id, session_id, owned),
    ensures
        owned <==> target_id == capture.target_id@,
{
}

/// The answer of the shared lookup, of a slot that is never found to hold a
/// session: nothing is the recorder's.
pub proof fn lookups_find_nothing_in_an_empty_slot(
    slot: Mutex<Option<CaptureSession>>,
    target_id: Seq<char>,
    session_id: Seq<char>,
    owned: bool,
)
    requires
        forall|reading: SlotReading| #[trigger]
            has_read(slot, reading) ==> reading == SlotReading::Held(None) || reading
                == SlotReading::Poisoned,
        looked_up(slot, target_id, session_id, owned),
    ensures
        !owned,
{
}

} // verus!
