use vstd::prelude::*;

use crate::registry::SessionRegistry;

verus! {

/// Where a connection stands in its life.
#[derive(Debug, Clone, Copy, PartialEq, Eq, Structural)]
pub enum Phase {
    Connecting,
    Registered,
    Closing,
    Terminated,
}

/// One of the two loops that serve a connection.
#[derive(Debug, Clone, Copy, PartialEq, Eq, Structural)]
pub enum LoopSide {
    /// Drains the connection's sink onto its socket.
    Outbound,
    /// Reads the socket and routes what it reads.
    Inbound,
}

/// What the inbound loop read from the socket.
#[derive(Debug, Clone, Copy, PartialEq, Eq, Structural)]
pub enum InboundEvent {
    /// A text frame.
    Text,
    /// A close frame.
    Close,
    /// A frame of any other kind.
    Other,
    /// A read or protocol error, or the end of the stream.
    Failed,
}

/// What the inbound loop does next.
#[derive(Debug, Clone, Copy, PartialEq, Eq, Structural)]
pub enum InboundStep {
    /// Hand the text frame to the router and read on.
    Route,
    /// Read on.
    Ignore,
    /// Leave the loop.
    Stop,
}

/// The decisions of one connection: its session id, its phase and which of
/// its two loops still run. The socket and the sink stay with the caller,
/// which runs the loops and reports to this value what happens.
pub struct ConnectionPump {
    pub session_id: String,
    pub phase: Phase,
    pub inbound_running: bool,
    pub outbound_running: bool,
}

/// The phase that goes with the loops that run, once registered.
pub open spec fn phase_of(inbound: bool, outbound: bool) -> Phase {
    if inbound && outbound {
        Phase::Registered
    } else if inbound || outbound {
        Phase::Closing
    } else {
        Phase::Terminated
    }
}

/// The step the inbound loop takes on `event`.
pub open spec fn step_of(event: InboundEvent) -> InboundStep {
    match event {
        InboundEvent::Text => InboundStep::Route,
        InboundEvent::Other => InboundStep::Ignore,
        InboundEvent::Close => InboundStep::Stop,
        InboundEvent::Failed => InboundStep::Stop,
    }
}

impl ConnectionPump {
    /// The phase agrees with the loops: none runs before registration, both
    /// while registered, one while closing, none once terminated.
    pub open spec fn wf(&self) -> bool {
        if self.phase == Phase::Connecting {
            !self.inbound_running && !self.outbound_running
        } else {
            self.phase == phase_of(self.inbound_running, self.outbound_running)
        }
    }

    /// A connection for `session_id` that has just been accepted.
    pub fn new(session_id: String) -> (r: ConnectionPump)
        ensures
            r.wf(),
            r.session_id == session_id,
            r.phase == Phase::Connecting,
    {
        ConnectionPump { session_id, phase: Phase::Connecting, inbound_running: false, outbound_running: false }
    }

    /// Installs `sink` as this connection's sink under its session id and
    /// starts both loops. The sink that a previous connection of the same id
    /// had is handed back: dropping it closes that connection's sink, which
    /// ends its outbound loop and with it that connection.
    pub fn register<S>(&mut self, sessions: &mut SessionRegistry<S>, sink: S) -> (r: Option<S>)
        requires
            old(self).wf(),
            old(self).phase == Phase::Connecting,
            old(sessions).wf(),
        ensures
            final(self).wf(),
            final(self).session_id == old(self).session_id,
            final(self).phase == Phase::Registered,
            final(self).inbound_running && final(self).outbound_running,
            final(sessions).wf(),
            final(sessions)@ == old(sessions)@.insert(old(self).session_id@, sink),
            r is Some <==> old(sessions)@.contains_key(old(self).session_id@),
            r matches Some(p) ==> p == old(sessions)@[old(self).session_id@],
    {
        let previous = sessions.register(self.session_id.clone(), sink);
        self.phase = Phase::Registered;
        self.inbound_running = true;
        self.outbound_running = true;
        previous
    }

    /// Decides what the inbound loop does with what it read. A close frame
    /// removes the session from `sessions` before the loop stops; nothing
    /// else touches it.
    pub fn on_inbound<S>(&self, sessions: &mut SessionRegistry<S>, event: InboundEvent) -> (r: InboundStep)
        requires
            old(sessions).wf(),
        ensures
            r == step_of(event),
            final(sessions).wf(),
            event == InboundEvent::Close ==> final(sessions)@ == old(sessions)@.remove(self.session_id@),
            event != InboundEvent::Close ==> final(sessions)@ == old(sessions)@,
    {
        match event {
            InboundEvent::Text => InboundStep::Route,
            InboundEvent::Other => InboundStep::Ignore,
            InboundEvent::Close => {
                let _ = sessions.remove(self.session_id.as_str());
                InboundStep::Stop
            },
            InboundEvent::Failed => InboundStep::Stop,
        }
    }

    /// Records that the loop `side` has ended. The result says whether the
    /// other loop still runs and must now be cancelled; once both have ended
    /// the connection is terminated.
    pub fn on_loop_finished(&mut self, side: LoopSide) -> (r: bool)
        requires
            old(self).wf(),
            old(self).phase != Phase::Connecting,
        ensures
            final(self).wf(),
            final(self).session_id == old(self).session_id,
            final(self).inbound_running == (old(self).inbound_running && side != LoopSide::Inbound),
            final(self).outbound_running == (old(self).outbound_running && side != LoopSide::Outbound),
            r == (final(self).inbound_running || final(self).outbound_running),
            final(self).phase == phase_of(final(self).inbound_running, final(self).outbound_running),
    {
        match side {
            LoopSide::Inbound => self.inbound_running = false,
            LoopSide::Outbound => self.outbound_running = false,
        }
        self.phase = if self.inbound_running && self.outbound_running {
            Phase::Registered
        } else if self.inbound_running || self.outbound_running {
            Phase::Closing
        } else {
            Phase::Terminated
        };
        self.inbound_running || self.outbound_running
    }
}

/// When a registered connection's socket sends a close frame, its inbound
/// loop stops, the end of that loop cancels the outbound loop, and once that
/// one has ended too the connection is terminated and its session id no
/// longer resolves.
pub proof fn close_frame_ends_connection<S>(sessions: Map<Seq<char>, S>, id: Seq<char>)
    ensures
        step_of(InboundEvent::Close) == InboundStep::Stop,
        !sessions.remove(id).contains_key(id),
        phase_of(false, true) == Phase::Closing,
        phase_of(false, false) == Phase::Terminated,
{
}

} // verus!
