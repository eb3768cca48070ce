//! Events queued for delivery, with the account they were raised for.
use vstd::prelude::*;
use crate::hook::events::RustMailerEvent;

verus! {

/// An event waiting in the delivery queue.
#[derive(Debug)]
pub struct Event {
    pub account_id: u64,
    pub account_email: String,
    pub event: RustMailerEvent,
}

impl Event {
    pub fn new(account_id: u64, account_email: &str, event: RustMailerEvent) -> (r: Event)
        ensures
            r.account_id == account_id,
            r.account_email@ == account_email@,
            r.event == event,
    {
        Event { account_id, account_email: account_email.to_owned(), event }
    }
}

/// How many queued events are handed on at once.
pub const BATCH_SIZE: usize = 50;

/// Whether the queued events are handed on now: when a full batch is waiting,
/// or a second has passed since the last hand-over, and something is waiting.
pub fn should_flush(buffered: usize, millis_since_flush: u64) -> (r: bool)
    ensures
        r == ((buffered >= BATCH_SIZE || millis_since_flush >= 1000) && buffered > 0),
{
    (buffered >= BATCH_SIZE || millis_since_flush >= 1000) && buffered > 0
}

} // verus!
