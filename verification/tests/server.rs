use udp_echo::config::{DATAGRAM_CAPACITY, ECHO_PORT};
use udp_echo::driver::{Directive, Event, Request};
use udp_echo::endpoint::{Endpoint, Ipv4};
use udp_echo::failure::{FailureClass, IoFailure, Stage};
use udp_echo::server::EchoServer;

fn listening() -> EchoServer {
    let mut server = EchoServer::standard();
    server.step(Event::Bound { bound: Ok(()) });
    server
}

fn peer() -> Endpoint {
    Endpoint { host: Ipv4(127, 0, 0, 1), port: 54321 }
}

fn filled(datagram: &[u8]) -> Vec<u8> {
    let mut buffer = vec![0u8; DATAGRAM_CAPACITY];
    buffer[..datagram.len()].copy_from_slice(datagram);
    buffer
}

#[test]
fn standard_server_binds_the_echo_port_on_loopback() {
    let server = EchoServer::standard();
    assert_eq!(server.local(), Endpoint { host: Ipv4(127, 0, 0, 1), port: 10000 });
    assert_eq!(
        server.pending(),
        Directive::Perform(Request::Bind { local: Endpoint::loopback(ECHO_PORT) })
    );
    assert_eq!(server.failure(), None);
}

#[test]
fn standard_server_has_room_for_the_longest_datagram() {
    assert_eq!(DATAGRAM_CAPACITY, 65535);
    let mut server = EchoServer::standard();
    let directive = server.step(Event::Bound { bound: Ok(()) });
    assert_eq!(directive, Directive::Perform(Request::RecvFrom { buffer: vec![0u8; 65535] }));
}

#[test]
fn standard_server_echoes_long_datagrams_whole() {
    for len in [1024usize, 1025, 2000, 65507, 65535] {
        let datagram: Vec<u8> = (0..len).map(|i| (i % 253) as u8).collect();
        let mut server = listening();
        let directive = server.step(Event::Received {
            buffer: filled(&datagram),
            received: Ok((len, peer())),
        });
        assert_eq!(
            directive,
            Directive::Perform(Request::SendTo { buffer: datagram, target: peer() })
        );
    }
}

#[test]
fn bound_server_listens_with_a_blank_buffer() {
    let mut server = EchoServer::new(Endpoint::loopback(7), 4);
    let directive = server.step(Event::Bound { bound: Ok(()) });
    assert_eq!(directive, Directive::Perform(Request::RecvFrom { buffer: vec![0u8; 4] }));
    assert_eq!(server.pending(), directive);
}

#[test]
fn datagram_goes_back_to_the_peer_it_came_from() {
    let mut server = listening();
    let directive = server.step(Event::Received {
        buffer: filled(b"example.com"),
        received: Ok((11, peer())),
    });
    assert_eq!(
        directive,
        Directive::Perform(Request::SendTo { buffer: b"example.com".to_vec(), target: peer() })
    );
    assert_eq!(server.pending(), directive);
}

#[test]
fn server_listens_again_once_the_echo_is_sent() {
    let mut server = listening();
    server.step(Event::Received { buffer: filled(b"abc"), received: Ok((3, peer())) });
    let directive = server.step(Event::Sent { sent: Ok(3) });
    assert_eq!(directive, Directive::Perform(Request::RecvFrom { buffer: vec![0u8; 65535] }));
    assert_eq!(server.failure(), None);
}

#[test]
fn server_echoes_datagram_after_datagram() {
    let mut server = listening();
    let other = Endpoint::loopback(40000);
    for (datagram, from) in [(&b"one"[..], peer()), (&b""[..], other), (&b"three"[..], peer())] {
        let directive = server.step(Event::Received {
            buffer: filled(datagram),
            received: Ok((datagram.len(), from)),
        });
        assert_eq!(
            directive,
            Directive::Perform(Request::SendTo { buffer: datagram.to_vec(), target: from })
        );
        server.step(Event::Sent { sent: Ok(datagram.len()) });
    }
}

#[test]
fn server_does_not_receive_while_it_echoes() {
    let mut server = listening();
    server.step(Event::Received { buffer: filled(b"first"), received: Ok((5, peer())) });
    let directive = server.step(Event::Received {
        buffer: filled(b"second"),
        received: Ok((6, Endpoint::loopback(1))),
    });
    assert_eq!(
        directive,
        Directive::Perform(Request::SendTo { buffer: b"first".to_vec(), target: peer() })
    );
}

#[test]
fn failed_bind_stops_the_server() {
    let mut server = EchoServer::standard();
    let directive = server.step(Event::Bound { bound: Err(FailureClass::Other) });
    assert_eq!(directive, Directive::Halt);
    assert_eq!(
        server.failure(),
        Some(IoFailure { stage: Stage::Bind, class: FailureClass::Other })
    );
}

#[test]
fn failed_receive_stops_the_server() {
    let mut server = listening();
    let directive = server.step(Event::Received {
        buffer: vec![0u8; 65535],
        received: Err(FailureClass::Other),
    });
    assert_eq!(directive, Directive::Halt);
    assert_eq!(
        server.failure(),
        Some(IoFailure { stage: Stage::Receive, class: FailureClass::Other })
    );
}

#[test]
fn failed_send_stops_the_server_for_good() {
    let mut server = listening();
    server.step(Event::Received { buffer: filled(b"abc"), received: Ok((3, peer())) });
    let directive = server.step(Event::Sent { sent: Err(FailureClass::Refused) });
    assert_eq!(directive, Directive::Halt);
    let failure = Some(IoFailure { stage: Stage::Send, class: FailureClass::Refused });
    assert_eq!(server.failure(), failure);
    assert_eq!(server.step(Event::Bound { bound: Ok(()) }), Directive::Halt);
    assert_eq!(server.step(Event::Sent { sent: Ok(3) }), Directive::Halt);
    assert_eq!(server.failure(), failure);
}

#[test]
fn server_ignores_what_answers_nothing() {
    let mut server = EchoServer::standard();
    let directive = server.step(Event::Sent { sent: Ok(1) });
    assert!(matches!(directive, Directive::Perform(Request::Bind { .. })));
    let mut server = listening();
    let directive = server.step(Event::Sent { sent: Err(FailureClass::Other) });
    assert!(matches!(directive, Directive::Perform(Request::RecvFrom { .. })));
    assert_eq!(server.failure(), None);
}
