//! The echo server: whatever arrives goes back to where it came from.
//!
//! Once bound, the server is in one of two states. While listening it waits
//! for a datagram. While echoing it sends the bytes it has just received
//! back to the peer that sent them, and then listens again. It echoes one
//! datagram at a time and keeps nothing of it afterwards. It has no end of
//! its own: only a failed request stops it.

use vstd::prelude::*;
use crate::config::{DATAGRAM_CAPACITY, ECHO_PORT};
use crate::driver::{
    blank, blank_buffer, copy_bytes, copy_leading, leading, Directive, DirectiveModel, Event,
    EventModel, Request, RequestModel,
};
use crate::endpoint::Endpoint;
use crate::failure::{FailureClass, IoFailure, Stage};

verus! {

/// What the server is doing.
pub enum Activity {
    /// The bind is under way.
    Binding,
    /// A receive is under way.
    Listening,
    /// `datagram` has come in from `peer` and is on its way back.
    Echoing { datagram: Seq<u8>, peer: Endpoint },
    /// A request has failed, and the server has stopped there.
    Stopped { failure: IoFailure },
}

/// The mathematical value of an [`EchoServer`].
pub struct ServerModel {
    pub local: Endpoint,
    pub capacity: usize,
    pub activity: Activity,
}

impl ServerModel {
    /// A server before anything has happened: it is about to bind.
    pub open spec fn initial(local: Endpoint, capacity: usize) -> ServerModel {
        ServerModel { local, capacity, activity: Activity::Binding }
    }

    /// What the server waits for: the request that is under way, or nothing
    /// more once it has stopped.
    pub open spec fn pending(self) -> DirectiveModel {
        match self.activity {
            Activity::Binding => DirectiveModel::Perform(RequestModel::Bind { local: self.local }),
            Activity::Listening => DirectiveModel::Perform(
                RequestModel::RecvFrom { buffer: blank(self.capacity as nat) },
            ),
            Activity::Echoing { datagram, peer } => DirectiveModel::Perform(
                RequestModel::SendTo { buffer: datagram, target: peer },
            ),
            Activity::Stopped { .. } => DirectiveModel::Halt,
        }
    }

    /// What the server is doing once `event` has been reported.
    ///
    /// A datagram that has come in is sent back, byte for byte, to the peer
    /// it came from; once it is sent the server listens again. A failure
    /// stops the server. An event that does not answer the request under way
    /// changes nothing.
    pub open spec fn activity_after(self, event: EventModel) -> Activity {
        match (self.activity, event) {
            (Activity::Binding, EventModel::Bound { bound: Ok(_) }) => Activity::Listening,
            (Activity::Binding, EventModel::Bound { bound: Err(class) }) => Activity::Stopped {
                failure: IoFailure { stage: Stage::Bind, class },
            },
            (Activity::Listening, EventModel::Received { buffer, received: Ok(arrival) }) => {
                Activity::Echoing {
                    datagram: leading(buffer, arrival.0 as nat),
                    peer: arrival.1,
                }
            },
            (Activity::Listening, EventModel::Received { received: Err(class), .. }) => {
                Activity::Stopped { failure: IoFailure { stage: Stage::Receive, class } }
            },
            (Activity::Echoing { .. }, EventModel::Sent { sent: Ok(_) }) => Activity::Listening,
            (Activity::Echoing { .. }, EventModel::Sent { sent: Err(class) }) => Activity::Stopped {
                failure: IoFailure { stage: Stage::Send, class },
            },
            _ => self.activity,
        }
    }

    /// The server once `event` has been reported.
    pub open spec fn advance(self, event: EventModel) -> ServerModel {
        ServerModel { activity: self.activity_after(event), ..self }
    }

    /// The failure that has stopped the server, if one has.
    pub open spec fn failure(self) -> Option<IoFailure> {
        match self.activity {
            Activity::Stopped { failure } => Some(failure),
            _ => None,
        }
    }
}

#[derive(Clone, Copy, Debug, PartialEq, Eq, Structural)]
enum Phase {
    Binding,
    Listening,
    Echoing,
    Stopped,
}

/// The echo server.
#[derive(Debug)]
pub struct EchoServer {
    local: Endpoint,
    capacity: usize,
    phase: Phase,
    /// Meaningful while echoing.
    datagram: Vec<u8>,
    /// Meaningful while echoing.
    peer: Endpoint,
    /// Meaningful once stopped.
    failure: IoFailure,
}

impl View for EchoServer {
    type V = ServerModel;

    closed spec fn view(&self) -> ServerModel {
        ServerModel {
            local: self.local,
            capacity: self.capacity,
            activity: match self.phase {
                Phase::Binding => Activity::Binding,
                Phase::Listening => Activity::Listening,
                Phase::Echoing => Activity::Echoing { datagram: self.datagram@, peer: self.peer },
                Phase::Stopped => Activity::Stopped { failure: self.failure },
            },
        }
    }
}

impl EchoServer {
    /// A server for the address `local` that receives into buffers of
    /// `capacity` bytes. It has bound no socket yet.
    pub fn new(local: Endpoint, capacity: usize) -> (server: EchoServer)
        ensures
            server@ == ServerModel::initial(local, capacity),
    {
        EchoServer {
            local,
            capacity,
            phase: Phase::Binding,
            datagram: Vec::new(),
            peer: local,
            failure: IoFailure { stage: Stage::Bind, class: FailureClass::Other },
        }
    }

    /// The server at its usual place: the echo port on the loopback host,
    /// with a buffer that holds the longest datagram there is.
    pub fn standard() -> (server: EchoServer)
        ensures
            server@ == ServerModel::initial(
                Endpoint::spec_loopback(ECHO_PORT),
                DATAGRAM_CAPACITY,
            ),
    {
        EchoServer::new(Endpoint::loopback(ECHO_PORT), DATAGRAM_CAPACITY)
    }

    /// The address that the server binds to.
    pub fn local(&self) -> (local: Endpoint)
        ensures
            local == self@.local,
    {
        self.local
    }

    /// What the server waits for.
    pub fn pending(&self) -> (directive: Directive)
        ensures
            directive@ == self@.pending(),
    {
        match self.phase {
            Phase::Binding => Directive::Perform(Request::Bind { local: self.local }),
            Phase::Listening => Directive::Perform(
                Request::RecvFrom { buffer: blank_buffer(self.capacity) },
            ),
            Phase::Echoing => Directive::Perform(
                Request::SendTo { buffer: copy_bytes(&self.datagram), target: self.peer },
            ),
            Phase::Stopped => Directive::Halt,
        }
    }

    /// The failure that has stopped the server: `None` while it runs.
    pub fn failure(&self) -> (failure: Option<IoFailure>)
        ensures
            failure == self@.failure(),
    {
        match self.phase {
            Phase::Stopped => Some(self.failure),
            _ => None,
        }
    }

    /// Reports `event`, the completion of the request under way, and says
    /// what the server waits for next.
    pub fn step(&mut self, event: Event) -> (directive: Directive)
        ensures
            final(self)@ == old(self)@.advance(event@),
            directive@ == final(self)@.pending(),
    {
        match event {
            Event::Bound { bound } => {
                if self.phase == Phase::Binding {
                    match bound {
                        Ok(_) => {
                            self.phase = Phase::Listening;
                        },
                        Err(class) => {
                            self.failure = IoFailure { stage: Stage::Bind, class };
                            self.phase = Phase::Stopped;
                        },
                    }
                }
            },
            Event::Received { buffer, received } => {
                if self.phase == Phase::Listening {
                    match received {
                        Ok(arrival) => {
                            self.datagram = copy_leading(&buffer, arrival.0);
                            self.peer = arrival.1;
                            self.phase = Phase::Echoing;
                        },
                        Err(class) => {
                            self.failure = IoFailure { stage: Stage::Receive, class };
                            self.phase = Phase::Stopped;
                        },
                    }
                }
            },
            Event::Sent { sent } => {
                if self.phase == Phase::Echoing {
                    match sent {
                        Ok(_) => {
                            self.datagram = Vec::new();
                            self.phase = Phase::Listening;
                        },
                        Err(class) => {
                            self.failure = IoFailure { stage: Stage::Send, class };
                            self.phase = Phase::Stopped;
                        },
                    }
                }
            },
        }
        self.pending()
    }
}

} // verus!
