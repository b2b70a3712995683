//! The one kind of error there is: an I/O failure of a socket request.

use vstd::prelude::*;

verus! {

/// The socket request that failed.
#[derive(Clone, Copy, Debug, PartialEq, Eq, Structural)]
pub enum Stage {
    Bind,
    Send,
    Receive,
}

/// What the transport said went wrong.
#[derive(Clone, Copy, Debug, PartialEq, Eq, Structural)]
pub enum FailureClass {
    /// Nobody listens at the target: the transport reported the datagram as
    /// refused.
    Refused,
    /// Any other I/O failure.
    Other,
}

/// An I/O failure: which request failed, and how.
///
/// A routine stops at its first failure. Nothing is retried.
#[derive(Clone, Copy, Debug, PartialEq, Eq, Structural)]
pub struct IoFailure {
    pub stage: Stage,
    pub class: FailureClass,
}

} // verus!
