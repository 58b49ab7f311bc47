//! Playback cursor for finite-media sources.
//!
//! A finite video file is played back in a loop: each one-shot capture
//! requests the frame at the cursor and advances it. When the decoder fails
//! to produce that frame (commonly: the cursor ran past the end of the
//! media), the orchestrator re-requests frame 0 and resumes from frame 1 —
//! seamless looped playback without an explicit end-of-media signal.

use vstd::prelude::*;

verus! {

/// One capture request against a finite media of `media_len` frames when
/// the cursor stands at `pos`: the pair of the frame index whose content is
/// returned and the cursor position afterwards. An index below `media_len`
/// decodes; anything else fails and loops back to the start.
pub open spec fn cursor_step(pos: int, media_len: int) -> (int, int) {
    if pos < media_len {
        (pos, pos + 1)
    } else {
        (0, 1)
    }
}

/// Cursor wraparound law: with `media_len` valid frames, requesting the
/// frame one past the last yields frame 0's content and resets the cursor
/// so that the subsequent request yields frame 1's content.
pub proof fn lemma_cursor_wraparound(media_len: int)
    requires
        media_len >= 2,
    ensures
        cursor_step(media_len, media_len) == (0int, 1int),
        cursor_step(cursor_step(media_len, media_len).1, media_len) == (1int, 2int),
{
}

/// Monotonically increasing frame index into a finite media, wrapping to
/// the start on decode failure. Mutated only by the orchestrator serving
/// its session.
pub struct PlaybackCursor {
    pos: usize,
}

impl PlaybackCursor {
    /// The frame index the next capture requests.
    pub closed spec fn view(&self) -> int {
        self.pos as int
    }

    /// A cursor at a given starting position.
    pub fn at(pos: usize) -> (r: PlaybackCursor)
        ensures
            r@ == pos as int,
    {
        PlaybackCursor { pos }
    }

    /// A fresh cursor, starting at the first frame.
    pub fn new() -> (r: PlaybackCursor)
        ensures
            r@ == 0,
    {
        PlaybackCursor { pos: 0 }
    }

    /// The frame index to request now.
    pub fn current(&self) -> (idx: usize)
        ensures
            idx as int == self@,
    {
        self.pos
    }

    /// The decode at the current index succeeded: move past it.
    pub fn advance(&mut self)
        requires
            old(self)@ < usize::MAX as int,
        ensures
            final(self)@ == old(self)@ + 1,
    {
        self.pos = self.pos + 1;
    }

    /// The decode at the current index failed: loop back to the start.
    /// Returns the index to re-request (always frame 0) and leaves the
    /// cursor so that the subsequent request yields frame 1.
    pub fn rewind(&mut self) -> (idx: usize)
        ensures
            idx == 0,
            final(self)@ == 1,
    {
        self.pos = 1;
        0
    }

    /// One whole capture request against a simulated finite media with
    /// `media_len` decodable frames: returns the index whose content the
    /// caller receives and advances the cursor, looping back to the start
    /// when the current index no longer decodes.
    pub fn capture_index(&mut self, media_len: usize) -> (idx: usize)
        requires
            old(self)@ < usize::MAX as int,
        ensures
            (idx as int, final(self)@) == cursor_step(old(self)@, media_len as int),
    {
        if self.pos < media_len {
            let idx = self.pos;
            self.advance();
            idx
        } else {
            self.rewind()
        }
    }
}

} // verus!
