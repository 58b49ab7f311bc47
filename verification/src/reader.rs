//! Stream reader loop: the state machine behind the background worker that
//! drains a persistent decoder process.
//!
//! The embedding owns the blocking read on the process output and a shared
//! shutdown flag; this module owns the accumulator and every decision. Each
//! observation — bytes read, end of output, a read error, or the shutdown
//! flag set — is handed to [`ReaderLoop::step`], which demuxes complete
//! frames for the ring buffer and drives the lifecycle
//! `Starting -> Reading -> { Reading, Stopped }`.

use vstd::prelude::*;

use crate::demux::demux_frames;
use crate::demux::demux_rest;
use crate::demux::extract;
use crate::demux::views_of;
use crate::ring::buffer_push_all;
use crate::ring::FrameBuffer;

verus! {

/// Lifecycle of the reader loop.
#[derive(Clone, Copy, Debug, PartialEq, Eq, Structural)]
pub enum ReaderState {
    /// Created, not yet draining.
    Starting,
    /// Draining the decoder's output.
    Reading,
    /// Done: the decoder ended, a read failed, or shutdown was requested.
    /// No more fresh frames will appear.
    Stopped,
}

/// One observation from the embedding's blocking read, or the cooperative
/// shutdown flag seen set at an iteration boundary.
pub enum ReadEvent {
    /// The read returned these bytes.
    Data(Vec<u8>),
    /// The read returned zero bytes: the decoder closed its output. A
    /// normal termination, not an error; upstream it shows as the absence
    /// of fresh frames.
    EndOfOutput,
    /// The read failed.
    ReadError,
    /// The externally set shutdown flag was observed.
    ShutdownRequested,
}

/// The reader loop's own state: its lifecycle and the raw byte accumulator,
/// which no other component ever reads.
pub struct ReaderLoop {
    state: ReaderState,
    acc: Vec<u8>,
}

impl ReaderLoop {
    /// Current lifecycle state.
    pub closed spec fn spec_state(&self) -> ReaderState {
        self.state
    }

    /// The accumulated decoder output not yet cut into frames.
    pub closed spec fn spec_acc(&self) -> Seq<u8> {
        self.acc@
    }

    /// A fresh reader for one capture session.
    pub fn new() -> (r: ReaderLoop)
        ensures
            r.spec_state() == ReaderState::Starting,
            r.spec_acc() == Seq::<u8>::empty(),
    {
        let r = ReaderLoop { state: ReaderState::Starting, acc: Vec::new() };
        r
    }

    /// Current lifecycle state, for the embedding's loop condition.
    pub fn state(&self) -> (s: ReaderState)
        ensures
            s == self.spec_state(),
    {
        self.state
    }

    /// The worker thread has started draining.
    pub fn begin(&mut self)
        requires
            old(self).spec_state() == ReaderState::Starting,
        ensures
            final(self).spec_state() == ReaderState::Reading,
            final(self).spec_acc() == old(self).spec_acc(),
    {
        self.state = ReaderState::Reading;
    }

    /// Handles one observation: bytes are appended to the accumulator and
    /// every complete frame is returned for the ring buffer, in stream
    /// order; end of output, a read error, and a requested shutdown all
    /// stop the loop, emitting nothing.
    pub fn step(&mut self, event: ReadEvent) -> (frames: Vec<Vec<u8>>)
        requires
            old(self).spec_state() == ReaderState::Reading,
        ensures
            match event {
                ReadEvent::Data(bytes) => final(self).spec_state() == ReaderState::Reading
                    && views_of(frames@) == demux_frames(old(self).spec_acc() + bytes@)
                    && final(self).spec_acc() == demux_rest(old(self).spec_acc() + bytes@),
                _ => final(self).spec_state() == ReaderState::Stopped && frames@.len() == 0
                    && final(self).spec_acc() == old(self).spec_acc(),
            },
    {
        match event {
            ReadEvent::Data(bytes) => {
                let mut incoming = bytes;
                self.acc.append(&mut incoming);
                extract(&mut self.acc)
            },
            ReadEvent::EndOfOutput => {
                self.state = ReaderState::Stopped;
                Vec::new()
            },
            ReadEvent::ReadError => {
                self.state = ReaderState::Stopped;
                Vec::new()
            },
            ReadEvent::ShutdownRequested => {
                self.state = ReaderState::Stopped;
                Vec::new()
            },
        }
    }

    /// Handles one observation and pushes every extracted frame straight
    /// into the session's frame buffer, in stream order — the only writer
    /// the buffer ever has.
    pub fn step_into(&mut self, event: ReadEvent, buffer: &mut FrameBuffer)
        requires
            old(self).spec_state() == ReaderState::Reading,
            old(buffer).wf(),
        ensures
            final(buffer).wf(),
            match event {
                ReadEvent::Data(bytes) => final(self).spec_state() == ReaderState::Reading
                    && final(self).spec_acc() == demux_rest(old(self).spec_acc() + bytes@)
                    && final(buffer)@ == buffer_push_all(
                    old(buffer)@,
                    demux_frames(old(self).spec_acc() + bytes@),
                ),
                _ => final(self).spec_state() == ReaderState::Stopped && final(self).spec_acc()
                    == old(self).spec_acc() && final(buffer)@ == old(buffer)@,
            },
    {
        let frames = self.step(event);
        proof {
            if frames@.len() == 0 {
                assert(views_of(frames@) =~= Seq::<Seq<u8>>::empty());
            }
        }
        buffer.push_all(frames);
    }
}

} // verus!
