//! Interrupt classification for callbacks that may see one record twice:
//! the event is consumed when it is classified.

use vstd::prelude::*;

use crate::ether::{interrupt_cause as classify, no_cause, spec_interrupt_cause, EtherCallbackArgs};

pub use crate::ether::InterruptCause;

verus! {

/// The event word of a record whose event was already classified.
pub const EVENT_TAKEN: u32 = 0xFFFF_FFFF;

/// Classifies the record's event and marks it taken. A taken event is no
/// known category, so classifying the same record again reports no cause.
pub fn interrupt_cause(args: &mut EtherCallbackArgs) -> (r: InterruptCause)
    ensures
        r == spec_interrupt_cause(old(args).event, old(args).status_eesr),
        *final(args) == (EtherCallbackArgs { event: EVENT_TAKEN, ..*old(args) }),
{
    let cause = classify(args);
    args.event = EVENT_TAKEN;
    cause
}

/// A record whose event was taken reports no cause, whatever its status word.
pub proof fn lemma_taken_event_has_no_cause(status_eesr: u32)
    ensures
        spec_interrupt_cause(EVENT_TAKEN, status_eesr) == no_cause(),
{
}

} // verus!
