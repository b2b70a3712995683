//! The client harness: the four variants, one after another.
//!
//! The blocking routine runs first, and its failure is the harness's own:
//! nothing runs after it. Each scheduled routine stands by itself: its
//! failure is logged, and the next variant runs all the same. No routine
//! shares anything with another.

use vstd::prelude::*;
use crate::failure::IoFailure;
use crate::variant::{Disposition, Variant};

verus! {

/// How the harness goes on.
#[derive(Clone, Copy, Debug, PartialEq, Eq)]
pub enum Course {
    /// Run the routine of this variant.
    Run(Variant),
    /// Leave, with this result.
    Exit(Result<(), IoFailure>),
}

/// What the harness makes of a routine that has ended.
#[derive(Clone, Copy, Debug, PartialEq, Eq)]
pub struct Verdict {
    /// A failure to log at error severity.
    pub log: Option<IoFailure>,
    /// How the harness goes on.
    pub course: Course,
}

/// The variant whose routine runs first.
pub open spec fn spec_first() -> Variant {
    Variant::Blocking
}

/// The variant whose routine runs first.
#[verifier::when_used_as_spec(spec_first)]
pub fn first() -> (variant: Variant)
    ensures
        variant == spec_first(),
{
    Variant::Blocking
}

/// How the harness goes on after a routine that did not end it: with the
/// next variant, or out with success after the last.
pub open spec fn onward(variant: Variant) -> Course {
    match variant.spec_successor() {
        Some(next) => Course::Run(next),
        None => Course::Exit(Ok(())),
    }
}

/// What the harness makes of the routine of `variant` having ended with
/// `failure`, where `None` stands for success.
pub open spec fn spec_verdict(variant: Variant, failure: Option<IoFailure>) -> Verdict {
    match failure {
        None => Verdict { log: None, course: onward(variant) },
        Some(failure) => match variant.spec_disposition() {
            Disposition::Propagate => Verdict { log: None, course: Course::Exit(Err(failure)) },
            Disposition::LogAndContinue => Verdict { log: Some(failure), course: onward(variant) },
        },
    }
}

/// What the harness makes of the routine of `variant` having ended with
/// `failure`, where `None` stands for success.
#[verifier::when_used_as_spec(spec_verdict)]
pub fn verdict(variant: Variant, failure: Option<IoFailure>) -> (verdict: Verdict)
    ensures
        verdict == spec_verdict(variant, failure),
{
    let onward = match variant.successor() {
        Some(next) => Course::Run(next),
        None => Course::Exit(Ok(())),
    };
    match failure {
        None => Verdict { log: None, course: onward },
        Some(failure) => match variant.disposition() {
            Disposition::Propagate => Verdict { log: None, course: Course::Exit(Err(failure)) },
            Disposition::LogAndContinue => Verdict { log: Some(failure), course: onward },
        },
    }
}

} // verus!
