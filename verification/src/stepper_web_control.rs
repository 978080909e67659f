//! The control endpoint's side of a move request: what a request carries and
//! what the endpoint answers.

use crate::gpio::stepper::StepperDirection;
use vstd::prelude::*;

verus! {

/// A move request as the control endpoint delivers it.
#[derive(Clone, Copy, Debug, PartialEq, Eq)]
pub struct StepperControl {
    pub direction: StepperDirection,
    pub steps: u32,
    pub pulse_width: u32,
}

/// Number of body bytes to read for a request: the length it announces, cut
/// to the width of an address, and none where it announces no length.
pub open spec fn announced_len(content_len: Option<u64>) -> usize {
    match content_len {
        Some(len) => len as usize,
        None => 0,
    }
}

pub fn body_len(content_len: Option<u64>) -> (len: usize)
    ensures
        len == announced_len(content_len),
{
    match content_len {
        Some(len) => {
            #[verifier::truncate]
            let cut: usize = len as usize;
            cut
        },
        None => 0,
    }
}

/// Body of the answer to a request: whether its body could be decoded.
pub open spec fn reply_text(decoded: bool) -> Seq<char> {
    if decoded {
        "Moving motor"@
    } else {
        "JSON error"@
    }
}

/// What the endpoint does with a request whose body was decoded, or could not
/// be: the text to answer with, and the request to forward to the motor. A
/// request that could not be decoded forwards nothing.
pub fn respond(decoded: Option<StepperControl>) -> (answer: (&'static str, Option<StepperControl>))
    ensures
        answer.0@ == reply_text(decoded is Some),
        answer.1 == decoded,
{
    match decoded {
        Some(control) => ("Moving motor", Some(control)),
        None => ("JSON error", None),
    }
}

} // verus!
