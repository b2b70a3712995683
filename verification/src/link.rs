//! A link in memory between one client and one echo server.
//!
//! The link stands in for the sockets and the network between them: it
//! carries a datagram from one machine's send to the other's receive at
//! once and without loss, and it takes the time it is told to take. What
//! does not fit into the receiver's buffer is cut off, as with a datagram
//! socket.

use vstd::prelude::*;
use crate::driver::{blank, Directive, Event, EventModel, Request};
use crate::endpoint::Endpoint;
use crate::exchange::{Exchange, ExchangeModel};
use crate::server::{Activity, EchoServer, ServerModel};

verus! {

/// The number of bytes of `datagram` that land in a buffer of `room` bytes.
pub open spec fn landed_len(room: nat, datagram: Seq<u8>) -> nat {
    if datagram.len() <= room {
        datagram.len()
    } else {
        room
    }
}

/// The buffer after `datagram` has been received into it: the bytes that
/// fit lie at its start, and the rest of the buffer is as it was.
pub open spec fn landed(buffer: Seq<u8>, datagram: Seq<u8>) -> Seq<u8> {
    let len = landed_len(buffer.len(), datagram) as int;
    datagram.take(len) + buffer.skip(len)
}

/// The completion of a receive into `buffer` when `datagram` arrives from
/// `peer`.
pub open spec fn arrival(buffer: Seq<u8>, datagram: Seq<u8>, peer: Endpoint) -> EventModel {
    EventModel::Received {
        buffer: landed(buffer, datagram),
        received: Ok((landed_len(buffer.len(), datagram) as usize, peer)),
    }
}

/// Whether a round can take place: the client is about to send, the server
/// is listening, and the client sends to where the server is.
pub open spec fn linked(client: ExchangeModel, server: ServerModel) -> bool {
    &&& client.progress is Sending
    &&& server.activity is Listening
    &&& client.config.target == server.local
}

/// The server after the client's payload has reached it from `client_at`.
pub open spec fn server_reached(
    client: ExchangeModel,
    server: ServerModel,
    client_at: Endpoint,
) -> ServerModel {
    server.advance(arrival(blank(server.capacity as nat), client.config.payload, client_at))
}

/// The bytes that the server sends back.
pub open spec fn echoed(client: ExchangeModel, server: ServerModel, client_at: Endpoint) -> Seq<
    u8,
> {
    match server_reached(client, server, client_at).activity {
        Activity::Echoing { datagram, .. } => datagram,
        _ => Seq::empty(),
    }
}

/// The client after one round with the server: its send has taken
/// `send_micros` microseconds, the server has echoed what reached it, and
/// the echo has come in after `recv_micros` microseconds. The link's clock
/// stands at zero whenever a request is begun.
pub open spec fn client_after_round(
    client: ExchangeModel,
    server: ServerModel,
    client_at: Endpoint,
    send_micros: u128,
    recv_micros: u128,
) -> ExchangeModel {
    client.begun(0).advance(
        EventModel::Sent { sent: Ok(client.config.payload.len() as usize) },
        send_micros,
    ).begun(0).advance(
        arrival(
            blank(client.config.capacity as nat),
            echoed(client, server, client_at),
            server.local,
        ),
        recv_micros,
    )
}

/// The server after one round: the echo is sent, and it listens again.
pub open spec fn server_after_round(
    client: ExchangeModel,
    server: ServerModel,
    client_at: Endpoint,
) -> ServerModel {
    let reached = server_reached(client, server, client_at);
    reached.advance(EventModel::Sent { sent: Ok(echoed(client, server, client_at).len() as usize) })
}

/// Receives `datagram` into `buffer`, as a datagram socket does: the bytes
/// that fit are copied to the start of the buffer, the others are dropped.
/// Returns the buffer and the number of bytes copied.
pub fn receive_into(buffer: Vec<u8>, datagram: &Vec<u8>) -> (filled: (Vec<u8>, usize))
    ensures
        filled.0@ == landed(buffer@, datagram@),
        filled.1 == landed_len(buffer@.len(), datagram@),
{
    let mut buffer = buffer;
    let len = if datagram.len() <= buffer.len() {
        datagram.len()
    } else {
        buffer.len()
    };
    let ghost before = buffer@;
    let mut i: usize = 0;
    while i < len
        invariant
            i <= len,
            len <= datagram.len(),
            len <= buffer.len(),
            buffer@.len() == before.len(),
            forall|j: int| 0 <= j < i ==> buffer@[j] == datagram@[j],
            forall|j: int| i <= j < buffer@.len() ==> buffer@[j] == before[j],
        decreases len - i,
    {
        buffer[i] = datagram[i];
        i += 1;
    }
    assert(buffer@ =~= landed(before, datagram@));
    (buffer, len)
}

/// Plays one round over the link: the client's payload reaches the server
/// as coming from `client_at`, the server echoes it, and the echo reaches
/// the client. The client's send and receive are taken to have lasted
/// `send_micros` and `recv_micros` microseconds.
///
/// Returns whether the round took place. It does not, and nothing changes,
/// unless the client is about to send, the server is listening, and the
/// client's target is the server's address.
pub fn round_trip(
    exchange: &mut Exchange,
    server: &mut EchoServer,
    client_at: Endpoint,
    send_micros: u128,
    recv_micros: u128,
) -> (done: bool)
    ensures
        done == linked(old(exchange)@, old(server)@),
        done ==> final(exchange)@ == client_after_round(
            old(exchange)@,
            old(server)@,
            client_at,
            send_micros,
            recv_micros,
        ),
        done ==> final(server)@ == server_after_round(old(exchange)@, old(server)@, client_at),
        !done ==> final(exchange)@ == old(exchange)@ && final(server)@ == old(server)@,
{
    let server_at = server.local();
    let (payload, target) = match exchange.pending() {
        Directive::Perform(Request::SendTo { buffer, target }) => (buffer, target),
        _ => { return false; },
    };
    let room = match server.pending() {
        Directive::Perform(Request::RecvFrom { buffer }) => buffer,
        _ => { return false; },
    };
    if target != server_at {
        return false;
    }
    let (request, request_len) = receive_into(room, &payload);
    let echo = match server.step(
        Event::Received { buffer: request, received: Ok((request_len, client_at)) },
    ) {
        Directive::Perform(Request::SendTo { buffer, .. }) => buffer,
        _ => { return false; },
    };
    exchange.begin_at(0);
    let room = match exchange.step_at(Event::Sent { sent: Ok(payload.len()) }, send_micros).next {
        Directive::Perform(Request::RecvFrom { buffer }) => buffer,
        _ => { return false; },
    };
    server.step(Event::Sent { sent: Ok(echo.len()) });
    let (reply, reply_len) = receive_into(room, &echo);
    exchange.begin_at(0);
    exchange.step_at(
        Event::Received { buffer: reply, received: Ok((reply_len, server_at)) },
        recv_micros,
    );
    true
}

} // verus!
