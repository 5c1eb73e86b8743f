//! Which frame of a capture is on screen in each slot of the video.
//!
//! The video has a fixed rate and the screencast has not: a frame is held
//! through the slots until a later one was captured.

use crate::collect::{gains_frame, CapturedRecording, CapturedVideoFrame};
use vstd::prelude::*;

verus! {

/// Going on from page `from`, page `to` is reached at `elapsed_nanos`: every
/// page that was passed is due by then, and the next one is not.
pub open spec fn turns_to(
    frames: Seq<CapturedVideoFrame>,
    from: int,
    to: int,
    elapsed_nanos: u128,
) -> bool {
    &&& from <= to < frames.len()
    &&& forall|i: int| from < i <= to ==> (#[trigger] frames[i]).elapsed_nanos <= elapsed_nanos
    &&& to + 1 < frames.len() ==> frames[to + 1].elapsed_nanos > elapsed_nanos
}

/// Page `page` is on screen at `elapsed_nanos`: it is the last frame that was
/// captured by then, or the first frame where none was.
pub open spec fn on_screen(
    frames: Seq<CapturedVideoFrame>,
    page: int,
    elapsed_nanos: u128,
) -> bool {
    &&& 0 <= page < frames.len()
    &&& page > 0 ==> frames[page].elapsed_nanos <= elapsed_nanos
    &&& forall|i: int|
        page < i < frames.len() ==> (#[trigger] frames[i]).elapsed_nanos > elapsed_nanos
}

/// The frames were captured one after another.
pub open spec fn in_capture_order(frames: Seq<CapturedVideoFrame>) -> bool {
    forall|i: int, j: int|
        0 <= i <= j < frames.len() ==> (#[trigger] frames[i]).elapsed_nanos <= (
        #[trigger] frames[j]).elapsed_nanos
}

/// The place that the encoder has reached in a capture.
pub struct PageCursor {
    page: usize,
    loaded: Option<usize>,
}

impl PageCursor {
    /// The frame that is on screen.
    pub closed spec fn page(self) -> int {
        self.page as int
    }

    /// The frame whose image is in memory, if there is one.
    pub closed spec fn loaded(self) -> Option<int> {
        match self.loaded {
            Some(page) => Some(page as int),
            None => None,
        }
    }

    /// The start of a capture, with no image in memory.
    pub fn new() -> (cursor: PageCursor)
        ensures
            cursor.page() == 0,
            cursor.loaded() is None,
    {
        PageCursor { page: 0, loaded: None }
    }

    /// The frame that is on screen.
    pub fn current(&self) -> (page: usize)
        ensures
            page == self.page(),
    {
        self.page
    }

    /// Goes on to the frame for the slot at `elapsed_nanos`. Returns the frame
    /// whose image must be loaded first, which is none where it is in memory
    /// already.
    pub fn turn(&mut self, capture: &CapturedRecording, elapsed_nanos: u128) -> (load: Option<
        usize,
    >)
        requires
            old(self).page() < capture.frames@.len(),
        ensures
            turns_to(capture.frames@, old(self).page(), final(self).page(), elapsed_nanos),
            final(self).loaded() == Some(final(self).page()),
            match load {
                Some(page) => page == final(self).page() && old(self).loaded() != Some(page as int),
                None => old(self).loaded() == Some(final(self).page()),
            },
    {
        let frames = &capture.frames;
        let ghost from = self.page as int;
        while self.page < frames.len() - 1 && frames[self.page + 1].elapsed_nanos <= elapsed_nanos
            invariant
                frames@ == capture.frames@,
                from == old(self).page(),
                from <= self.page < frames@.len(),
                self.loaded == old(self).loaded,
                forall|i: int|
                    from < i <= self.page ==> (#[trigger] frames@[i]).elapsed_nanos
                        <= elapsed_nanos,
            decreases frames@.len() - self.page,
        {
            self.page = self.page + 1;
        }
        let held = match self.loaded {
            Some(page) => page == self.page,
            None => false,
        };
        self.loaded = Some(self.page);
        if held {
            None
        } else {
            Some(self.page)
        }
    }
}

/// Turning the pages on, from the first one or from the one that was on screen
/// no later, gets to the page that is on screen.
pub proof fn turning_gets_to_the_latest_frame(
    frames: Seq<CapturedVideoFrame>,
    from: int,
    to: int,
    earlier_nanos: u128,
    elapsed_nanos: u128,
)
    requires
        in_capture_order(frames),
        from == 0 || (on_screen(frames, from, earlier_nanos) && earlier_nanos <= elapsed_nanos),
        turns_to(frames, from, to, elapsed_nanos),
    ensures
        on_screen(frames, to, elapsed_nanos),
{
    assert forall|i: int| to < i < frames.len() implies (#[trigger] frames[i]).elapsed_nanos
        > elapsed_nanos by {
        assert(frames[to + 1].elapsed_nanos <= frames[i].elapsed_nanos);
    }
}

/// Frames that are spooled at times that do not go back are in the order in
/// which they were captured.
pub proof fn spooling_keeps_capture_order(
    before: Seq<CapturedVideoFrame>,
    after: Seq<CapturedVideoFrame>,
    elapsed_nanos: u128,
)
    requires
        in_capture_order(before),
        before.len() > 0 ==> before.last().elapsed_nanos <= elapsed_nanos,
        gains_frame(before, after, elapsed_nanos),
    ensures
        in_capture_order(after),
{
    assert forall|i: int, j: int| 0 <= i <= j < after.len() implies (
    #[trigger] after[i]).elapsed_nanos <= (#[trigger] after[j]).elapsed_nanos by {
        if i < before.len() {
            assert(after.drop_last()[i] == after[i]);
            assert(before[i].elapsed_nanos <= before.last().elapsed_nanos);
        }
        if j < before.len() {
            assert(after.drop_last()[j] == after[j]);
        }
    }
}

/// Turning the pages passes every frame that is due, one that is due at that very
/// moment among them, and stops before the first that is not.
pub proof fn turning_stops_before_the_first_frame_not_due(
    frames: Seq<CapturedVideoFrame>,
    from: int,
    to: int,
    elapsed_nanos: u128,
    i: int,
)
    requires
        turns_to(frames, from, to, elapsed_nanos),
    ensures
        from <= to < frames.len(),
        from < i <= to ==> frames[i].elapsed_nanos <= elapsed_nanos,
        to + 1 < frames.len() ==> frames[to + 1].elapsed_nanos > elapsed_nanos,
{
}

/// There is one page that turning gets to.
pub proof fn turning_gets_to_one_page(
    frames: Seq<CapturedVideoFrame>,
    from: int,
    to: int,
    other: int,
    elapsed_nanos: u128,
)
    requires
        turns_to(frames, from, to, elapsed_nanos),
        turns_to(frames, from, other, elapsed_nanos),
    ensures
        to == other,
{
    if to < other {
        assert(frames[to + 1].elapsed_nanos <= elapsed_nanos);
    }
    if other < to {
        assert(frames[other + 1].elapsed_nanos <= elapsed_nanos);
    }
}

/// Of frames that were captured one after another, turning from the first gets
/// past every frame that was captured by then, and past no other.
pub proof fn turning_passes_what_was_captured(
    frames: Seq<CapturedVideoFrame>,
    to: int,
    elapsed_nanos: u128,
    i: int,
)
    requires
        forall|a: int, b: int|
            0 <= a <= b < frames.len() ==> (#[trigger] frames[a]).elapsed_nanos <= (
            #[trigger] frames[b]).elapsed_nanos,
        turns_to(frames, 0, to, elapsed_nanos),
        0 < i < frames.len(),
    ensures
        i <= to <==> frames[i].elapsed_nanos <= elapsed_nanos,
{
    if i > to {
        assert(frames[to + 1].elapsed_nanos <= frames[i].elapsed_nanos);
    }
}

/// The frame on screen was captured by then, unless it is the first, and every
/// later frame was not.
pub proof fn the_screen_shows_the_latest_frame(
    frames: Seq<CapturedVideoFrame>,
    page: int,
    elapsed_nanos: u128,
    i: int,
)
    requires
        on_screen(frames, page, elapsed_nanos),
    ensures
        0 <= page < frames.len(),
        page == 0 || frames[page].elapsed_nanos <= elapsed_nanos,
        page < i < frames.len() ==> frames[i].elapsed_nanos > elapsed_nanos,
{
}

} // verus!
