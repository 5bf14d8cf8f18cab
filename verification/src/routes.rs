//! What the request layer is served with: slot descriptors, the drop
//! sequencer, the latch worker, the reports built from them, and what a
//! request for a drop is answered with.

pub mod config;
pub mod guarantees;
pub mod latch;
pub mod machine;
pub mod sequencer;

use crate::routes::machine::{DropError, DropState};
use crate::text::{decimal, push_decimal};
use vstd::prelude::*;

verus! {

/// The status of an answer to a request that was served.
pub const STATUS_OK: u16 = 200;

/// The status of an answer to a request that asked for the impossible.
pub const STATUS_BAD_REQUEST: u16 = 400;

/// The status of an answer to a request that the machine failed.
pub const STATUS_INTERNAL_ERROR: u16 = 500;

/// What a request for a drop is answered with.
#[derive(Clone, Debug, PartialEq, Eq)]
pub struct DropReply {
    /// The status of the answer.
    pub status: u16,
    /// What happened, in words.
    pub text: String,
}

/// The status that an outcome is answered with: a drop that dispensed is
/// served, a bad slot number is the client's fault, every other failure the
/// machine's.
pub open spec fn spec_status(outcome: Result<DropState, DropError>) -> u16 {
    match outcome {
        Ok(_) => STATUS_OK,
        Err(DropError::BadSlot) => STATUS_BAD_REQUEST,
        Err(_) => STATUS_INTERNAL_ERROR,
    }
}

/// The words that an outcome of a drop of slot `slot` is answered with.
pub open spec fn spec_reply_text(slot: usize, outcome: Result<DropState, DropError>) -> Seq<
    char,
> {
    match outcome {
        Ok(_) => "Dropped drink from slot "@ + decimal(slot as nat),
        Err(DropError::BadSlot) => "Invalid slot ID provided"@,
        Err(error) => error.message(),
    }
}

/// The answer to a request for a drop of slot `slot` that ended with
/// `outcome`.
pub fn drop_reply(slot: usize, outcome: Result<DropState, DropError>) -> (reply: DropReply)
    ensures
        reply.status == spec_status(outcome),
        reply.text@ == spec_reply_text(slot, outcome),
{
    match outcome {
        Ok(_) => {
            let mut text = String::from_str("Dropped drink from slot ");
            push_decimal(&mut text, slot as u64);
            DropReply { status: STATUS_OK, text }
        },
        Err(DropError::BadSlot) => DropReply {
            status: STATUS_BAD_REQUEST,
            text: String::from_str("Invalid slot ID provided"),
        },
        Err(error) => DropReply { status: STATUS_INTERNAL_ERROR, text: error.to_string() },
    }
}

} // verus!
