use spinner::{Event, EventEmitter, EventPayload, SpinnerListener};
use std::sync::{Arc, Mutex};

struct CountingListener {
    counter: Arc<Mutex<i32>>,
}

impl SpinnerListener for CountingListener {
    fn on_event(&mut self, _payload: &EventPayload) {
        *self.counter.lock().unwrap() += 1;
    }
}

#[test]
fn test_event_emitter() {
    let mut emitter: EventEmitter<CountingListener> = EventEmitter::new();

    let counter = Arc::new(Mutex::new(0));
    let listener = CountingListener { counter: counter.clone() };

    emitter.on(Event::Start, listener);
    emitter.emit(Event::Start, &EventPayload::Start);

    assert_eq!(*counter.lock().unwrap(), 1);
}

#[test]
fn test_event_emitter_other_event_not_called() {
    let mut emitter: EventEmitter<CountingListener> = EventEmitter::new();

    let counter = Arc::new(Mutex::new(0));
    let listener = CountingListener { counter: counter.clone() };

    emitter.on(Event::Stop, listener);
    emitter.emit(Event::Start, &EventPayload::Start);

    assert_eq!(*counter.lock().unwrap(), 0);
}

#[test]
fn test_event_emitter_registration_order() {
    let mut emitter: EventEmitter<CountingListener> = EventEmitter::new();

    let counter = Arc::new(Mutex::new(0));
    emitter.on(Event::Resume, CountingListener { counter: counter.clone() });
    emitter.on(Event::Resume, CountingListener { counter: counter.clone() });

    emitter.emit(Event::Resume, &EventPayload::Resume { paused_ms: 5 });
    assert_eq!(*counter.lock().unwrap(), 2);

    emitter.emit(Event::Resume, &EventPayload::Resume { paused_ms: 6 });
    assert_eq!(*counter.lock().unwrap(), 4);
}
