//! What one exchange is run with.

use vstd::prelude::*;
use vstd::string::StrSliceExecFns;
use crate::endpoint::Endpoint;

verus! {

/// The port at which the echo server listens.
pub const ECHO_PORT: u16 = 10000;

/// The number of bytes that the client's receive buffer holds.
pub const BUFFER_CAPACITY: usize = 1024;

/// The number of bytes that the echo server's receive buffer holds. No UDP
/// datagram is longer, so the server echoes every datagram whole.
pub const DATAGRAM_CAPACITY: usize = 65535;

/// The mathematical value of an [`ExchangeConfig`].
pub struct ConfigModel {
    pub local: Endpoint,
    pub target: Endpoint,
    pub payload: Seq<u8>,
    pub capacity: usize,
}

/// The addresses, the payload and the buffer size of one exchange.
#[derive(Debug, PartialEq, Eq)]
pub struct ExchangeConfig {
    /// The address that the client's socket is bound to.
    pub local: Endpoint,
    /// The address that the payload is sent to.
    pub target: Endpoint,
    /// The bytes of the one datagram that is sent.
    pub payload: Vec<u8>,
    /// The size of the buffer that the reply is received into.
    pub capacity: usize,
}

impl View for ExchangeConfig {
    type V = ConfigModel;

    open spec fn view(&self) -> ConfigModel {
        ConfigModel {
            local: self.local,
            target: self.target,
            payload: self.payload@,
            capacity: self.capacity,
        }
    }
}

/// The bytes of the host name `example.com` in ASCII.
pub open spec fn standard_payload() -> Seq<u8> {
    seq![101u8, 120u8, 97u8, 109u8, 112u8, 108u8, 101u8, 46u8, 99u8, 111u8, 109u8]
}

/// The configuration that every client variant runs with: an ephemeral port
/// on the loopback host, the echo server's port on the same host, the host
/// name `example.com` as payload, and a receive buffer of
/// [`BUFFER_CAPACITY`] bytes.
pub open spec fn standard_config() -> ConfigModel {
    ConfigModel {
        local: Endpoint::spec_loopback(0),
        target: Endpoint::spec_loopback(ECHO_PORT),
        payload: standard_payload(),
        capacity: BUFFER_CAPACITY,
    }
}

impl ExchangeConfig {
    /// The configuration that every client variant runs with.
    pub fn standard() -> (config: ExchangeConfig)
        ensures
            config@ == standard_config(),
    {
        let text = "example.com";
        proof {
            reveal_strlit("example.com");
        }
        let payload = text.as_bytes_vec();
        proof {
            assert(vstd::string::is_ascii(text));
            vstd::string::is_ascii_spec_bytes(text);
            assert(payload@ =~= standard_payload());
        }
        ExchangeConfig {
            local: Endpoint::loopback(0),
            target: Endpoint::loopback(ECHO_PORT),
            payload,
            capacity: BUFFER_CAPACITY,
        }
    }
}

} // verus!
