//! The execution models under which the exchange is measured.

use vstd::prelude::*;

verus! {

/// How the socket requests of one client routine are carried out.
#[derive(Clone, Copy, Debug, PartialEq, Eq, Structural)]
pub enum Variant {
    /// Blocking calls on the calling thread.
    Blocking,
    /// A multi-threaded cooperative scheduler, built for the routine with a
    /// fixed number of workers.
    MultiThreaded,
    /// A single-threaded cooperative scheduler that borrows the buffer for
    /// the length of each operation.
    LocalBorrowing,
    /// A single-threaded cooperative scheduler that takes the buffer over for
    /// the length of each operation and hands it back with the result.
    LocalLoaning,
}

/// What becomes of a routine's failure.
#[derive(Clone, Copy, Debug, PartialEq, Eq, Structural)]
pub enum Disposition {
    /// The failure ends the whole harness and is its result.
    Propagate,
    /// The failure is logged and the harness goes on.
    LogAndContinue,
}

/// Workers of the multi-threaded scheduler.
pub const WORKER_THREADS: usize = 1;

impl Variant {
    /// The name under which the variant reports its timings.
    pub open spec fn spec_label(self) -> Seq<char> {
        match self {
            Variant::Blocking => "std"@,
            Variant::MultiThreaded => "tokio"@,
            Variant::LocalBorrowing => "glommio"@,
            Variant::LocalLoaning => "monoio"@,
        }
    }

    /// The name under which the variant reports its timings.
    pub fn label(self) -> (label: &'static str)
        ensures
            label@ == self.spec_label(),
    {
        match self {
            Variant::Blocking => "std",
            Variant::MultiThreaded => "tokio",
            Variant::LocalBorrowing => "glommio",
            Variant::LocalLoaning => "monoio",
        }
    }

    /// The variant that the harness runs after this one, if any.
    pub open spec fn spec_successor(self) -> Option<Variant> {
        match self {
            Variant::Blocking => Some(Variant::MultiThreaded),
            Variant::MultiThreaded => Some(Variant::LocalBorrowing),
            Variant::LocalBorrowing => Some(Variant::LocalLoaning),
            Variant::LocalLoaning => None,
        }
    }

    /// The variant that the harness runs after this one, if any.
    #[verifier::when_used_as_spec(spec_successor)]
    pub fn successor(self) -> (next: Option<Variant>)
        ensures
            next == self.spec_successor(),
    {
        match self {
            Variant::Blocking => Some(Variant::MultiThreaded),
            Variant::MultiThreaded => Some(Variant::LocalBorrowing),
            Variant::LocalBorrowing => Some(Variant::LocalLoaning),
            Variant::LocalLoaning => None,
        }
    }

    /// Only the blocking routine's failure ends the harness; the scheduled
    /// routines log theirs.
    pub open spec fn spec_disposition(self) -> Disposition {
        if self == Variant::Blocking {
            Disposition::Propagate
        } else {
            Disposition::LogAndContinue
        }
    }

    /// What becomes of a failure of this variant's routine.
    #[verifier::when_used_as_spec(spec_disposition)]
    pub fn disposition(self) -> (disposition: Disposition)
        ensures
            disposition == self.spec_disposition(),
    {
        match self {
            Variant::Blocking => Disposition::Propagate,
            _ => Disposition::LogAndContinue,
        }
    }

    /// The loaning variant reports the time of its receive before it looks
    /// at the result, so it reports a failed receive too. The others report
    /// a receive only once it has succeeded.
    pub open spec fn spec_reports_failed_receive(self) -> bool {
        self == Variant::LocalLoaning
    }

    /// Whether the receive line is printed for a receive that failed.
    #[verifier::when_used_as_spec(spec_reports_failed_receive)]
    pub fn reports_failed_receive(self) -> (reports: bool)
        ensures
            reports == self.spec_reports_failed_receive(),
    {
        match self {
            Variant::LocalLoaning => true,
            _ => false,
        }
    }

    /// The number of scheduler workers that the variant is built with, where
    /// it has a scheduler with workers.
    pub open spec fn spec_workers(self) -> Option<usize> {
        if self == Variant::MultiThreaded {
            Some(WORKER_THREADS)
        } else {
            None
        }
    }

    /// The number of scheduler workers that the variant is built with, where
    /// it has a scheduler with workers.
    #[verifier::when_used_as_spec(spec_workers)]
    pub fn workers(self) -> (workers: Option<usize>)
        ensures
            workers == self.spec_workers(),
    {
        match self {
            Variant::MultiThreaded => Some(WORKER_THREADS),
            _ => None,
        }
    }
}

} // verus!
