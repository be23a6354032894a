//! Waiting for an answer that another runtime computes.
//!
//! The answer arrives over a one-shot channel while the caller polls it. The
//! caller looks once right away, then after each of a bounded number of short
//! pauses, and gives up after the last.

use vstd::prelude::*;

verus! {

/// How often the caller pauses before it gives up.
pub const MAX_RETRIES: u32 = 5;

/// The length of one pause in milliseconds.
pub const RETRY_DELAY_MS: u64 = 5;

/// What the caller does after a look at the channel.
#[derive(Clone, Copy, Debug, PartialEq, Eq, Hash, Structural)]
pub enum BridgeAction {
    /// The answer is there: hand it on.
    Deliver,
    /// Pause for this many milliseconds and look again.
    Wait(u64),
    /// Report that the store did not answer.
    GiveUp,
}

/// What the caller does after a look that found the answer or not, with
/// `retries` pauses behind it.
pub open spec fn action_after(received: bool, retries: u32) -> BridgeAction {
    if received {
        BridgeAction::Deliver
    } else if retries < MAX_RETRIES {
        BridgeAction::Wait(RETRY_DELAY_MS)
    } else {
        BridgeAction::GiveUp
    }
}

/// Decides what follows a look at the channel.
pub fn bridge_action(received: bool, retries: u32) -> (r: BridgeAction)
    ensures
        r == action_after(received, retries),
{
    if received {
        BridgeAction::Deliver
    } else if retries < MAX_RETRIES {
        BridgeAction::Wait(RETRY_DELAY_MS)
    } else {
        BridgeAction::GiveUp
    }
}

/// The wait is bounded: after the last pause a look that finds nothing ends
/// it.
pub proof fn lemma_wait_is_bounded(retries: u32)
    requires
        retries >= MAX_RETRIES,
    ensures
        action_after(false, retries) == BridgeAction::GiveUp,
        action_after(true, retries) == BridgeAction::Deliver,
{
}

} // verus!
