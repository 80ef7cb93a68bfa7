use vstd::prelude::*;

verus! {

/// A lifecycle transition of the spinner that listeners can subscribe to.
#[derive(Debug, Clone, Copy, PartialEq, Eq, Structural)]
pub enum Event {
    Start,
    Stop,
    Pause,
    Resume,
}

/// The name of each lifecycle event.
pub open spec fn spec_event_name(e: Event) -> Seq<char> {
    match e {
        Event::Start => "Start"@,
        Event::Stop => "Stop"@,
        Event::Pause => "Pause"@,
        Event::Resume => "Resume"@,
    }
}

impl Event {
    /// The event's name.
    pub fn name(&self) -> (r: &'static str)
        ensures
            r@ == spec_event_name(*self),
    {
        match self {
            Event::Start => "Start",
            Event::Stop => "Stop",
            Event::Pause => "Pause",
            Event::Resume => "Resume",
        }
    }
}

/// The data handed to a listener at a lifecycle transition.
/// All durations are in milliseconds.
#[derive(Debug, Clone, Copy, PartialEq)]
pub enum EventPayload {
    /// The spinner started.
    Start,
    /// The spinner stopped after running for `elapsed_ms`.
    Stop { elapsed_ms: u64 },
    /// The spinner paused; `elapsed_ms` is the time since start, when known.
    Pause { elapsed_ms: Option<u64> },
    /// The spinner resumed; `paused_ms` is the total time spent paused so far.
    Resume { paused_ms: u64 },
}

/// The callback interface for lifecycle notifications. Implemented by the
/// library's users; each registered listener is invoked synchronously on the
/// handle's thread at the transition it was registered for.
pub trait SpinnerListener {
    fn on_event(&mut self, payload: &EventPayload);
}

} // verus!
