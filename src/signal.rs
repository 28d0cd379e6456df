use vstd::prelude::*;
use event_listener::{Event, EventListener};

verus! {

#[verifier::external_type_specification]
#[verifier::external_body]
pub struct ExEvent(Event);

#[verifier::external_type_specification]
#[verifier::external_body]
pub struct ExEventListener(EventListener);

/// Relies on event_listener's `Event::new`: a fresh event with no listener.
pub assume_specification[ Event::new ]() -> Event;

/// Relies on event_listener's `Event::listen`: registers one listener.
pub assume_specification[ Event::listen ](e: &Event) -> EventListener;

/// Relies on event_listener's `Event::notify`: wakes up to `n` listeners.
pub assume_specification[ Event::notify ](e: &Event, n: usize);

/// How a wait on a shutdown signal goes.
pub enum Listen {
    /// The signal is already set: nothing to wait for.
    Ready,
    /// The signal is not set yet: the listener resolves at the next notify.
    Wait(EventListener),
}

/// A one-shot cancellation flag with a broadcast wake-up.
///
/// Once set, it stays set.
pub struct SimpleEvent {
    flag: bool,
    event: Event,
}

impl SimpleEvent {
    pub closed spec fn spec_is_set(&self) -> bool {
        self.flag
    }

    /// A signal that is not set.
    pub fn shared() -> (r: SimpleEvent)
        ensures
            !r.spec_is_set(),
    {
        SimpleEvent { flag: false, event: Event::new() }
    }

    /// Whether the signal has been set.
    pub fn is_set(&self) -> (r: bool)
        ensures
            r == self.spec_is_set(),
    {
        self.flag
    }

    /// Registers a waiter; it needs no waiting once the signal is set.
    pub fn listen(&self) -> (r: Listen)
        ensures
            r is Ready <==> self.spec_is_set(),
    {
        if self.flag {
            Listen::Ready
        } else {
            Listen::Wait(self.event.listen())
        }
    }

    /// Sets the signal for good and wakes every registered waiter.
    pub fn notify(&mut self)
        ensures
            final(self).spec_is_set(),
    {
        self.flag = true;
        self.event.notify(usize::MAX);
    }
}

} // verus!
