//! What holds of every exchange, whatever the variant.

use vstd::prelude::*;
use crate::config::{ConfigModel, DATAGRAM_CAPACITY, ECHO_PORT};
use crate::driver::{blank, leading, DirectiveModel, EventModel, RequestModel};
use crate::endpoint::Endpoint;
use crate::exchange::{elapsed, ExchangeModel, Progress, SampleModel};
use crate::failure::IoFailure;
use crate::harness::{spec_first, spec_verdict, Course, Verdict};
use crate::link::{
    arrival, client_after_round, landed, landed_len, linked, server_after_round,
};
use crate::report::{spec_recv_line, spec_send_line};
use crate::server::ServerModel;
use crate::variant::Variant;

verus! {

/// A client made with `config` whose bind has succeeded.
pub open spec fn bound_client(variant: Variant, config: ConfigModel) -> ExchangeModel {
    ExchangeModel::initial(variant, config).advance(EventModel::Bound { bound: Ok(()) }, 0)
}

/// A server for `local` whose bind has succeeded.
pub open spec fn bound_server(local: Endpoint, capacity: usize) -> ServerModel {
    ServerModel::initial(local, capacity).advance(EventModel::Bound { bound: Ok(()) })
}

/// One round with a listening echo server completes the exchange, in every
/// variant, and the reply is the payload, cut to what the server's buffer
/// and then the client's buffer hold. The two times in the sample are
/// those of this round's send and of this round's receive.
pub proof fn lemma_round_completes(
    client: ExchangeModel,
    server: ServerModel,
    client_at: Endpoint,
    send_micros: u128,
    recv_micros: u128,
)
    requires
        linked(client, server),
    ensures
        client_after_round(client, server, client_at, send_micros, recv_micros).outcome() == Some(
            Ok::<SampleModel, IoFailure>(
                SampleModel {
                    send_micros,
                    recv_micros,
                    reply: leading(
                        leading(client.config.payload, server.capacity as nat),
                        client.config.capacity as nat,
                    ),
                },
            ),
        ),
{
    let reply = leading(
        leading(client.config.payload, server.capacity as nat),
        client.config.capacity as nat,
    );
    let after = client_after_round(client, server, client_at, send_micros, recv_micros);
    match after.progress {
        Progress::Completed { sample } => {
            assert(sample.reply =~= reply);
        },
        _ => {},
    }
}

/// A payload that fits into the buffers of both sides comes back exactly
/// as it was sent: the same bytes, as many as were sent. This holds in
/// every variant, from the moment both sides have bound their sockets.
pub proof fn lemma_echo_returns_payload(
    variant: Variant,
    config: ConfigModel,
    server_capacity: usize,
    client_at: Endpoint,
    send_micros: u128,
    recv_micros: u128,
)
    requires
        config.payload.len() <= config.capacity,
        config.payload.len() <= server_capacity,
    ensures
        linked(bound_client(variant, config), bound_server(config.target, server_capacity)),
        client_after_round(
            bound_client(variant, config),
            bound_server(config.target, server_capacity),
            client_at,
            send_micros,
            recv_micros,
        ).outcome() == Some(
            Ok::<SampleModel, IoFailure>(
                SampleModel { send_micros, recv_micros, reply: config.payload },
            ),
        ),
{
    let client = bound_client(variant, config);
    let server = bound_server(config.target, server_capacity);
    lemma_round_completes(client, server, client_at, send_micros, recv_micros);
    assert(leading(leading(config.payload, server_capacity as nat), config.capacity as nat)
        =~= config.payload);
}

/// The server keeps nothing of a round: after it, the server is exactly
/// what it was before. So a later exchange, of whatever variant and with
/// whatever payload, ends as it would have ended had the earlier one never
/// taken place.
pub proof fn lemma_rounds_are_independent(
    earlier: ExchangeModel,
    later: ExchangeModel,
    server: ServerModel,
    earlier_at: Endpoint,
    later_at: Endpoint,
    send_micros: u128,
    recv_micros: u128,
)
    requires
        linked(earlier, server),
    ensures
        server_after_round(earlier, server, earlier_at) == server,
        client_after_round(
            later,
            server_after_round(earlier, server, earlier_at),
            later_at,
            send_micros,
            recv_micros,
        ) == client_after_round(later, server, later_at, send_micros, recv_micros),
{
}

/// A second exchange on the socket of a first: once the first round has
/// completed and the exchange is renewed with another payload, it sends
/// again without binding, and the round that follows completes with that
/// payload as its reply, if it fits into the buffers of both sides,
/// whatever the first payload was and whatever the first reply held. Its
/// two times are its own: nothing of the first round's times is in them.
pub proof fn lemma_second_round_returns_its_own_payload(
    client: ExchangeModel,
    server: ServerModel,
    client_at: Endpoint,
    first_send: u128,
    first_recv: u128,
    payload: Seq<u8>,
    second_send: u128,
    second_recv: u128,
)
    requires
        linked(client, server),
        payload.len() <= client.config.capacity,
        payload.len() <= server.capacity,
    ensures
        ({
            let once = client_after_round(client, server, client_at, first_send, first_recv);
            let served = server_after_round(client, server, client_at);
            let again = once.renewed(payload);
            &&& again.pending() == DirectiveModel::Perform(
                RequestModel::SendTo { buffer: payload, target: client.config.target },
            )
            &&& linked(again, served)
            &&& client_after_round(again, served, client_at, second_send, second_recv).outcome()
                == Some(
                Ok::<SampleModel, IoFailure>(
                    SampleModel { send_micros: second_send, recv_micros: second_recv, reply: payload },
                ),
            )
        }),
{
    let once = client_after_round(client, server, client_at, first_send, first_recv);
    let served = server_after_round(client, server, client_at);
    let again = once.renewed(payload);
    lemma_round_completes(again, served, client_at, second_send, second_recv);
    assert(leading(leading(payload, served.capacity as nat), again.config.capacity as nat)
        =~= payload);
}

/// Each sample lies between its own two readings of the clock. Where the
/// send is begun with the clock at `send_begun` and completes at
/// `send_done`, and the receive is begun at `recv_begun` and completes at
/// `recv_done`, the send line names `send_done - send_begun`, the receive
/// line names `recv_done - recv_begun`, and these two numbers are the
/// sample. What lies between the end of the send and the beginning of the
/// receive is in neither.
pub proof fn lemma_samples_span_their_own_operations(
    client: ExchangeModel,
    send_begun: u128,
    send_done: u128,
    sent: usize,
    recv_begun: u128,
    recv_done: u128,
    buffer: Seq<u8>,
    len: usize,
    peer: Endpoint,
)
    requires
        client.progress is Sending,
        send_begun <= send_done,
        recv_begun <= recv_done,
    ensures
        ({
            let sending = client.begun(send_begun);
            let sent_event = EventModel::Sent { sent: Ok(sent) };
            let receiving = sending.advance(sent_event, send_done).begun(recv_begun);
            let received_event = EventModel::Received { buffer, received: Ok((len, peer)) };
            &&& sending.printed(sent_event, send_done) == Some(
                spec_send_line(client.variant, (send_done - send_begun) as nat),
            )
            &&& receiving.printed(received_event, recv_done) == Some(
                spec_recv_line(client.variant, (recv_done - recv_begun) as nat),
            )
            &&& receiving.advance(received_event, recv_done).outcome() == Some(
                Ok::<SampleModel, IoFailure>(
                    SampleModel {
                        send_micros: (send_done - send_begun) as u128,
                        recv_micros: (recv_done - recv_begun) as u128,
                        reply: leading(buffer, len as nat),
                    },
                ),
            )
        }),
{
}

/// The standard echo server sends back every datagram whole: whatever
/// datagram of at most [`DATAGRAM_CAPACITY`] bytes reaches it from a peer
/// while it listens, the next thing it asks for is the send of exactly
/// those bytes to that peer.
pub proof fn lemma_standard_server_echoes_verbatim(datagram: Seq<u8>, peer: Endpoint)
    requires
        datagram.len() <= DATAGRAM_CAPACITY,
    ensures
        ({
            let listening = bound_server(Endpoint::spec_loopback(ECHO_PORT), DATAGRAM_CAPACITY);
            &&& listening.pending() == DirectiveModel::Perform(
                RequestModel::RecvFrom { buffer: blank(DATAGRAM_CAPACITY as nat) },
            )
            &&& listening.advance(
                arrival(blank(DATAGRAM_CAPACITY as nat), datagram, peer),
            ).pending() == DirectiveModel::Perform(
                RequestModel::SendTo { buffer: datagram, target: peer },
            )
        }),
{
    let listening = bound_server(Endpoint::spec_loopback(ECHO_PORT), DATAGRAM_CAPACITY);
    let room = blank(DATAGRAM_CAPACITY as nat);
    let echoing = listening.advance(arrival(room, datagram, peer));
    assert(leading(landed(room, datagram), landed_len(room.len(), datagram)) =~= datagram);
}

/// A reply of no bytes is a success in every variant: the exchange
/// completes, with an empty reply.
pub proof fn lemma_empty_reply_is_success(
    client: ExchangeModel,
    buffer: Seq<u8>,
    peer: Endpoint,
    now: u128,
)
    requires
        client.progress is Receiving,
    ensures
        client.advance(EventModel::Received { buffer, received: Ok((0usize, peer)) }, now).outcome()
            == Some(
            Ok::<SampleModel, IoFailure>(
                SampleModel {
                    send_micros: client.progress->send_micros,
                    recv_micros: elapsed(client.started, now),
                    reply: Seq::empty(),
                },
            ),
        ),
{
    let after = client.advance(
        EventModel::Received { buffer, received: Ok((0usize, peer)) },
        now,
    );
    match after.progress {
        Progress::Completed { sample } => {
            assert(sample.reply =~= Seq::<u8>::empty());
        },
        _ => {},
    }
}

/// A send of no bytes is a success in every variant: the exchange goes on
/// to await the reply.
pub proof fn lemma_empty_send_is_success(client: ExchangeModel, now: u128)
    requires
        client.progress is Sending,
    ensures
        client.advance(EventModel::Sent { sent: Ok(0usize) }, now).progress
            == (Progress::Receiving { send_micros: elapsed(client.started, now) }),
{
}

/// A failed exchange stays failed: no event moves it, it asks for nothing
/// more, and it prints nothing. Nothing is ever tried again.
pub proof fn lemma_failure_is_final(client: ExchangeModel, event: EventModel, now: u128)
    requires
        client.progress is Failed,
    ensures
        client.advance(event, now) == client,
        client.pending() == DirectiveModel::Halt,
        client.printed(event, now) == None::<Seq<char>>,
{
}

/// The harness runs the blocking routine first. If that fails, the harness
/// leaves with the failure and runs nothing else. If it succeeds, the three
/// scheduled routines run in their order whatever becomes of each, their
/// failures are logged, and the harness leaves with success.
pub proof fn lemma_harness_course(
    blocking: Option<IoFailure>,
    multi_threaded: Option<IoFailure>,
    borrowing: Option<IoFailure>,
    loaning: Option<IoFailure>,
)
    ensures
        spec_first() == Variant::Blocking,
        blocking matches Some(failure) ==> spec_verdict(Variant::Blocking, blocking) == (Verdict {
            log: None,
            course: Course::Exit(Err(failure)),
        }),
        blocking is None ==> spec_verdict(Variant::Blocking, blocking) == (Verdict {
            log: None,
            course: Course::Run(Variant::MultiThreaded),
        }),
        spec_verdict(Variant::MultiThreaded, multi_threaded) == (Verdict {
            log: multi_threaded,
            course: Course::Run(Variant::LocalBorrowing),
        }),
        spec_verdict(Variant::LocalBorrowing, borrowing) == (Verdict {
            log: borrowing,
            course: Course::Run(Variant::LocalLoaning),
        }),
        spec_verdict(Variant::LocalLoaning, loaning) == (Verdict {
            log: loaning,
            course: Course::Exit(Ok(())),
        }),
{
}

} // verus!
