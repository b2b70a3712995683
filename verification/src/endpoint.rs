//! Socket addresses as plain values.

use vstd::prelude::*;
use vstd::string::StringExecFns;
use crate::decimal::{decimal, push_decimal};

verus! {

/// An IPv4 host address, most significant octet first.
#[derive(Clone, Copy, Debug, PartialEq, Eq, Structural)]
pub struct Ipv4(pub u8, pub u8, pub u8, pub u8);

/// One end of a datagram exchange: a host and a UDP port.
///
/// Port 0 in a bind request asks the operating system for an ephemeral port.
#[derive(Clone, Copy, Debug, PartialEq, Eq, Structural)]
pub struct Endpoint {
    pub host: Ipv4,
    pub port: u16,
}

impl Endpoint {
    /// The endpoint as text: the four octets of the host in decimal with
    /// dots between them, a colon, and the port in decimal.
    pub open spec fn spec_text(self) -> Seq<char> {
        decimal(self.host.0 as nat) + "."@ + decimal(self.host.1 as nat) + "."@ + decimal(
            self.host.2 as nat,
        ) + "."@ + decimal(self.host.3 as nat) + ":"@ + decimal(self.port as nat)
    }

    /// The endpoint as text, such as `127.0.0.1:10000`.
    pub fn text(&self) -> (text: String)
        ensures
            text@ == self.spec_text(),
    {
        let mut text = String::new();
        push_decimal(&mut text, self.host.0 as u128);
        text.append(".");
        push_decimal(&mut text, self.host.1 as u128);
        text.append(".");
        push_decimal(&mut text, self.host.2 as u128);
        text.append(".");
        push_decimal(&mut text, self.host.3 as u128);
        text.append(":");
        push_decimal(&mut text, self.port as u128);
        assert(text@ =~= self.spec_text());
        text
    }

    /// The loopback host `127.0.0.1` with the given port.
    pub open spec fn spec_loopback(port: u16) -> Endpoint {
        Endpoint { host: Ipv4(127, 0, 0, 1), port }
    }

    /// The loopback host `127.0.0.1` with the given port.
    #[verifier::when_used_as_spec(spec_loopback)]
    pub fn loopback(port: u16) -> (endpoint: Endpoint)
        ensures
            endpoint == Endpoint::spec_loopback(port),
    {
        Endpoint { host: Ipv4(127, 0, 0, 1), port }
    }
}

} // verus!
