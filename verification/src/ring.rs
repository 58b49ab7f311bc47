//! Bounded most-recent-frames buffer.
//!
//! The reader loop pushes every extracted frame here; callers read the
//! freshest one. Capacity is fixed: pushing into a full buffer evicts the
//! oldest frame first, so the buffer always holds the most recent frames in
//! stream order. The reader loop is the sole writer; the embedding serializes
//! concurrent access with a lock held only for the duration of one operation.

use vstd::prelude::*;

use crate::demux::views_of;

verus! {

/// How many frames the buffer retains at most.
pub const FRAME_CAPACITY: usize = 5;

/// The buffer contents after pushing `f` onto contents `s`: appended, with
/// the oldest frame evicted first when the buffer is already full.
pub open spec fn buffer_push(s: Seq<Seq<u8>>, f: Seq<u8>) -> Seq<Seq<u8>> {
    if s.len() < FRAME_CAPACITY as int {
        s.push(f)
    } else {
        s.skip(1).push(f)
    }
}

/// The buffer contents after pushing `pushes` (in order) into an empty
/// buffer.
pub open spec fn buffer_after(pushes: Seq<Seq<u8>>) -> Seq<Seq<u8>>
    decreases pushes.len(),
{
    if pushes.len() == 0 {
        Seq::empty()
    } else {
        buffer_push(buffer_after(pushes.drop_last()), pushes.last())
    }
}

/// The buffer contents after pushing `frames` (in order) onto contents `s`.
pub open spec fn buffer_push_all(s: Seq<Seq<u8>>, frames: Seq<Seq<u8>>) -> Seq<Seq<u8>>
    decreases frames.len(),
{
    if frames.len() == 0 {
        s
    } else {
        buffer_push_all(buffer_push(s, frames[0]), frames.skip(1))
    }
}

/// Fixed-capacity, most-recent-wins store of extracted frames.
pub struct FrameBuffer {
    frames: Vec<Vec<u8>>,
}

impl View for FrameBuffer {
    type V = Seq<Seq<u8>>;

    closed spec fn view(&self) -> Seq<Seq<u8>> {
        views_of(self.frames@)
    }
}

impl FrameBuffer {
    /// The buffer never holds more than `FRAME_CAPACITY` frames.
    pub open spec fn wf(&self) -> bool {
        self@.len() <= FRAME_CAPACITY as int
    }

    /// An empty buffer: no frame is available yet.
    pub fn new() -> (r: FrameBuffer)
        ensures
            r@ == Seq::<Seq<u8>>::empty(),
            r.wf(),
    {
        let r = FrameBuffer { frames: Vec::new() };
        proof {
            assert(r@ =~= Seq::<Seq<u8>>::empty());
        }
        r
    }

    /// How many frames are currently retained.
    pub fn len(&self) -> (n: usize)
        ensures
            n == self@.len(),
    {
        self.frames.len()
    }

    /// Appends `frame`, evicting the oldest frame first when full.
    pub fn push(&mut self, frame: Vec<u8>)
        requires
            old(self).wf(),
        ensures
            final(self)@ == buffer_push(old(self)@, frame@),
            final(self).wf(),
    {
        let ghost prev = self.frames@;
        if self.frames.len() == FRAME_CAPACITY {
            self.frames.remove(0);
            proof {
                assert(views_of(self.frames@) =~= views_of(prev).skip(1));
            }
        }
        let ghost mid = self.frames@;
        self.frames.push(frame);
        proof {
            assert(views_of(self.frames@) =~= views_of(mid).push(frame@));
            assert(final(self)@ =~= buffer_push(views_of(prev), frame@));
        }
    }

    /// Appends every frame, in order, evicting oldest frames as needed.
    pub fn push_all(&mut self, frames: Vec<Vec<u8>>)
        requires
            old(self).wf(),
        ensures
            final(self)@ == buffer_push_all(old(self)@, views_of(frames@)),
            final(self).wf(),
    {
        let ghost target = buffer_push_all(old(self)@, views_of(frames@));
        let mut remaining = frames;
        while remaining.len() > 0
            invariant
                self.wf(),
                buffer_push_all(self@, views_of(remaining@)) == target,
            decreases remaining@.len(),
        {
            let ghost before = remaining@;
            let f = remaining.remove(0);
            proof {
                assert(views_of(before)[0] == f@);
                assert(views_of(before).skip(1) =~= views_of(remaining@));
            }
            self.push(f);
        }
    }

    /// The frame at position `i`, oldest first, or `None` past the end.
    pub fn get(&self, i: usize) -> (r: Option<&Vec<u8>>)
        ensures
            match r {
                Some(f) => i < self@.len() && f@ == self@[i as int],
                None => i >= self@.len(),
            },
    {
        if i < self.frames.len() {
            Some(&self.frames[i])
        } else {
            None
        }
    }

    /// The most recently pushed frame, or `None` until the first push.
    pub fn latest(&self) -> (r: Option<&Vec<u8>>)
        ensures
            match r {
                Some(f) => self@.len() > 0 && f@ == self@.last(),
                None => self@.len() == 0,
            },
    {
        let r = self.frames.as_slice().last();
        proof {
            match r {
                Some(f) => {
                    assert(f@ == self@.last());
                },
                None => {},
            }
        }
        r
    }
}

/// Ring buffer law: after any sequence of pushes into an empty buffer, the
/// buffer holds exactly the last `FRAME_CAPACITY` frames pushed (all of them
/// while fewer were pushed), newest last. The length never exceeds the
/// capacity, the latest frame is always the most recent push, and every
/// older push has been evicted.
pub proof fn lemma_buffer_after(pushes: Seq<Seq<u8>>)
    ensures
        buffer_after(pushes) == if pushes.len() <= FRAME_CAPACITY as int {
            pushes
        } else {
            pushes.skip(pushes.len() - FRAME_CAPACITY as int)
        },
        buffer_after(pushes).len() <= FRAME_CAPACITY as int,
        pushes.len() > 0 ==> buffer_after(pushes).last() == pushes.last(),
    decreases pushes.len(),
{
    if pushes.len() == 0 {
        assert(buffer_after(pushes) =~= pushes);
    } else {
        let prior = pushes.drop_last();
        lemma_buffer_after(prior);
        if prior.len() < FRAME_CAPACITY as int {
            assert(prior.push(pushes.last()) =~= pushes);
        } else if prior.len() == FRAME_CAPACITY as int {
            assert(buffer_after(prior).skip(1).push(pushes.last()) =~= pushes.skip(
                pushes.len() - FRAME_CAPACITY as int,
            ));
        } else {
            assert(buffer_after(prior).skip(1).push(pushes.last()) =~= pushes.skip(
                pushes.len() - FRAME_CAPACITY as int,
            ));
        }
    }
}

} // verus!
