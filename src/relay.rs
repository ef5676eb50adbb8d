//! The single-slot hand-off from the notification listener to the render loop.
use vstd::prelude::*;

verus! {

/// A desktop notification as the render loop sees it.
#[derive(Debug)]
pub struct NotificationEvent {
    /// The notification's summary line.
    pub summary: String,
    /// How long the notification holds the status line, in milliseconds.
    pub hold_ms: u64,
}

/// How long a notification with the bus's expiry value holds the line:
/// that many milliseconds where it is positive; a negative value (the
/// server's default) or zero (never expires) asks for no particular time,
/// and the line goes back to the metrics at once.
pub open spec fn hold_of(expire_timeout: i32) -> u64 {
    if expire_timeout > 0 {
        expire_timeout as u64
    } else {
        0
    }
}

impl NotificationEvent {
    /// An event from a summary and the expiry value that came over the bus.
    pub fn from_bus(summary: String, expire_timeout: i32) -> (r: NotificationEvent)
        ensures
            r.summary@ == summary@,
            r.hold_ms == hold_of(expire_timeout),
    {
        let hold_ms: u64 = if expire_timeout > 0 {
            expire_timeout as u64
        } else {
            0
        };
        NotificationEvent { summary, hold_ms }
    }
}

/// Holds at most one notification that the render loop has not yet taken.
/// A newer notification replaces an older one that is still waiting.
pub struct Relay {
    pub slot: Option<NotificationEvent>,
}

impl Relay {
    /// An empty relay.
    pub fn new() -> (r: Relay)
        ensures
            r.slot is None,
    {
        Relay { slot: None }
    }

    /// Hands a notification on. It never waits on the reader and takes the
    /// same few steps whatever the relay holds: the new event replaces any
    /// event still waiting.
    pub fn offer(&mut self, e: NotificationEvent)
        ensures
            final(self).slot == Some(e),
    {
        self.slot = Some(e);
    }

    /// Takes the waiting notification, if any, and leaves the relay empty.
    pub fn take(&mut self) -> (r: Option<NotificationEvent>)
        ensures
            r == old(self).slot,
            final(self).slot is None,
    {
        self.slot.take()
    }
}

} // verus!
