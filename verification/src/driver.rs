//! The three things a transport can be asked to do, and what it answers.
//!
//! A state machine of this crate never touches a socket. It hands out a
//! [`Request`], the caller carries it out on whatever transport it has, and
//! reports the completion as an [`Event`]. A buffer travels with the
//! request, so that the transport alone holds it while the operation runs.
//! A buffer to send is given away for good; a buffer to receive into comes
//! back with the event.

use vstd::prelude::*;
use vstd::slice::{slice_subrange, slice_to_vec};
use crate::endpoint::Endpoint;
use crate::failure::FailureClass;

verus! {

/// A socket operation for the caller to carry out.
#[derive(Debug, PartialEq, Eq)]
pub enum Request {
    /// Bind the socket to `local`.
    Bind { local: Endpoint },
    /// Send the whole of `buffer` to `target` as one datagram.
    SendTo { buffer: Vec<u8>, target: Endpoint },
    /// Receive one datagram into `buffer`, whose length is the room there
    /// is for it.
    RecvFrom { buffer: Vec<u8> },
}

/// The mathematical value of a [`Request`].
pub enum RequestModel {
    Bind { local: Endpoint },
    SendTo { buffer: Seq<u8>, target: Endpoint },
    RecvFrom { buffer: Seq<u8> },
}

impl View for Request {
    type V = RequestModel;

    open spec fn view(&self) -> RequestModel {
        match *self {
            Request::Bind { local } => RequestModel::Bind { local },
            Request::SendTo { buffer, target } => RequestModel::SendTo {
                buffer: buffer@,
                target,
            },
            Request::RecvFrom { buffer } => RequestModel::RecvFrom { buffer: buffer@ },
        }
    }
}

/// The completion of a [`Request`].
#[derive(Debug, PartialEq, Eq)]
pub enum Event {
    /// The bind has succeeded or failed.
    Bound { bound: Result<(), FailureClass> },
    /// The send has failed, or the transport has accepted as many bytes as
    /// `sent` says.
    Sent { sent: Result<usize, FailureClass> },
    /// The receive has failed, or a datagram lies at the start of `buffer`:
    /// `received` says how many bytes long it is and which peer it came from.
    Received { buffer: Vec<u8>, received: Result<(usize, Endpoint), FailureClass> },
}

/// The mathematical value of an [`Event`].
pub enum EventModel {
    Bound { bound: Result<(), FailureClass> },
    Sent { sent: Result<usize, FailureClass> },
    Received { buffer: Seq<u8>, received: Result<(usize, Endpoint), FailureClass> },
}

impl View for Event {
    type V = EventModel;

    open spec fn view(&self) -> EventModel {
        match *self {
            Event::Bound { bound } => EventModel::Bound { bound },
            Event::Sent { sent } => EventModel::Sent { sent },
            Event::Received { buffer, received } => EventModel::Received {
                buffer: buffer@,
                received,
            },
        }
    }
}

/// What a state machine wants next.
#[derive(Debug, PartialEq, Eq)]
pub enum Directive {
    /// Carry out the request and report its completion.
    Perform(Request),
    /// Nothing more: the machine has come to its end.
    Halt,
}

/// The mathematical value of a [`Directive`].
pub enum DirectiveModel {
    Perform(RequestModel),
    Halt,
}

impl View for Directive {
    type V = DirectiveModel;

    open spec fn view(&self) -> DirectiveModel {
        match *self {
            Directive::Perform(request) => DirectiveModel::Perform(request@),
            Directive::Halt => DirectiveModel::Halt,
        }
    }
}

/// A buffer of `room` zero bytes.
pub open spec fn blank(room: nat) -> Seq<u8> {
    Seq::new(room, |i: int| 0u8)
}

/// The first `len` bytes of `bytes`, or all of them if there are no more.
///
/// Of a buffer that a receive of `len` bytes has completed on, this is the
/// datagram.
pub open spec fn leading(bytes: Seq<u8>, len: nat) -> Seq<u8> {
    if len <= bytes.len() {
        bytes.take(len as int)
    } else {
        bytes
    }
}

/// A fresh receive buffer with room for `room` bytes, all zero.
pub fn blank_buffer(room: usize) -> (buffer: Vec<u8>)
    ensures
        buffer@ == blank(room as nat),
{
    let buffer = vec![0u8; room];
    assert(buffer@ =~= blank(room as nat));
    buffer
}

/// A copy of `bytes`.
pub fn copy_bytes(bytes: &Vec<u8>) -> (copy: Vec<u8>)
    ensures
        copy@ == bytes@,
{
    slice_to_vec(bytes.as_slice())
}

/// A copy of the first `len` bytes of `buffer`, or of all of them if there
/// are no more.
pub fn copy_leading(buffer: &Vec<u8>, len: usize) -> (datagram: Vec<u8>)
    ensures
        datagram@ == leading(buffer@, len as nat),
{
    let end = if len <= buffer.len() {
        len
    } else {
        buffer.len()
    };
    let datagram = slice_to_vec(slice_subrange(buffer.as_slice(), 0, end));
    assert(datagram@ =~= leading(buffer@, len as nat));
    datagram
}

} // verus!
