//! Capture sessions.
//!
//! A session binds one source to zero-or-one live decoder process and, when
//! persistent, a reader loop and frame buffer. It owns the liveness flag and
//! the cooperative shutdown flag. Created on connect, torn down on explicit
//! disconnect or on process exit; at most one decoder process is ever live,
//! and starting a new one implies stopping any prior one first. The
//! embedding spawns and terminates the actual process; the states and the
//! rules live here.

use vstd::prelude::*;

use crate::source::CameraSource;

verus! {

/// One capture session: its source, its liveness flag, and the state of
/// its decoder process.
pub struct CaptureSession {
    source: CameraSource,
    connected: bool,
    process_active: bool,
    shutdown_requested: bool,
}

impl CaptureSession {
    /// The source this session is bound to: immutable for its lifetime.
    pub closed spec fn spec_source(&self) -> CameraSource {
        self.source
    }

    /// Whether the session is connected (the liveness flag).
    pub closed spec fn spec_connected(&self) -> bool {
        self.connected
    }

    /// Whether a decoder process is currently live for this session.
    pub closed spec fn spec_process_active(&self) -> bool {
        self.process_active
    }

    /// Whether cooperative shutdown has been requested.
    pub closed spec fn spec_shutdown_requested(&self) -> bool {
        self.shutdown_requested
    }

    /// A session never keeps a process beyond its own life.
    pub open spec fn wf(&self) -> bool {
        self.spec_process_active() ==> self.spec_connected()
    }

    /// Connects a session to a source: connected, no process yet.
    pub fn open(source: CameraSource) -> (r: CaptureSession)
        ensures
            r.spec_source() == source,
            r.spec_connected(),
            !r.spec_process_active(),
            !r.spec_shutdown_requested(),
            r.wf(),
    {
        CaptureSession { source, connected: true, process_active: false, shutdown_requested: false }
    }

    /// The session's source.
    pub fn source(&self) -> (s: &CameraSource)
        ensures
            *s == self.spec_source(),
    {
        &self.source
    }

    /// Whether the session is connected.
    pub fn is_connected(&self) -> (c: bool)
        ensures
            c == self.spec_connected(),
    {
        self.connected
    }

    /// Whether a decoder process is live.
    pub fn has_live_process(&self) -> (p: bool)
        ensures
            p == self.spec_process_active(),
    {
        self.process_active
    }

    /// A decoder process was started for this session. Any prior process
    /// must have been stopped first: at most one is ever live.
    pub fn process_started(&mut self)
        requires
            old(self).spec_connected(),
            !old(self).spec_process_active(),
        ensures
            final(self).spec_source() == old(self).spec_source(),
            final(self).spec_connected(),
            final(self).spec_process_active(),
            !final(self).spec_shutdown_requested(),
            final(self).wf(),
    {
        self.process_active = true;
        self.shutdown_requested = false;
    }

    /// Requests cooperative shutdown and accounts for the forced process
    /// termination: after it, no process is live. Idempotent — on an
    /// already stopped session it changes nothing.
    pub fn stop(&mut self)
        requires
            old(self).wf(),
        ensures
            final(self).spec_source() == old(self).spec_source(),
            final(self).spec_shutdown_requested(),
            !final(self).spec_process_active(),
            final(self).spec_connected() == old(self).spec_connected(),
            final(self).wf(),
    {
        self.shutdown_requested = true;
        self.process_active = false;
    }

    /// The reader loop saw the process end on its own (end of output).
    /// The session stays connected: the absence of fresh frames is the
    /// caller-visible symptom, and re-establishing is the caller's
    /// decision — there is no automatic restart.
    pub fn process_exited(&mut self)
        requires
            old(self).wf(),
        ensures
            final(self).spec_source() == old(self).spec_source(),
            !final(self).spec_process_active(),
            final(self).spec_connected() == old(self).spec_connected(),
            final(self).spec_shutdown_requested() == old(self).spec_shutdown_requested(),
            final(self).wf(),
    {
        self.process_active = false;
    }

    /// Tears the session down: disconnected, no process, shutdown noted.
    pub fn disconnect(&mut self)
        ensures
            final(self).spec_source() == old(self).spec_source(),
            !final(self).spec_connected(),
            !final(self).spec_process_active(),
            final(self).spec_shutdown_requested(),
            final(self).wf(),
    {
        self.shutdown_requested = true;
        self.process_active = false;
        self.connected = false;
    }
}

} // verus!
