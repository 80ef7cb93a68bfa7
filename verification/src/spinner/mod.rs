pub mod alignment;
pub mod builtins;
pub mod channel;
pub mod event;
pub mod gate;
pub mod message;
pub mod paint;
pub mod state;
pub mod stream;
pub mod text;

use vstd::prelude::*;

use colored::Color;
use std::sync::atomic::AtomicBool;
use std::sync::Arc;

use crate::error::{SpinnerError, SpinnerResult};
use crate::event_emitter::{same_events, EventEmitter};
use crate::spinner::alignment::Alignment;
use crate::spinner::builtins::SpinnerStyle;
use crate::spinner::event::{Event, EventPayload, SpinnerListener};
use crate::spinner::gate::PauseGate;
use crate::spinner::message::UpdateMessage;
use crate::spinner::state::{arc_flag_clone, spec_dots_of, spec_text_of, SpinnerState, StateView};
use crate::spinner::stream::SpinnerStream;

verus! {

/// Relies on threadpool::ThreadPool::new and execute: creates a pool of
/// one worker thread and hands it the render job, then drops the pool
/// handle; the worker picks the queued job up and runs it to completion
/// before exiting. The job itself only calls the verified render loop.
#[verifier::external_body]
fn spawn_render_worker(state: SpinnerState, flag: Arc<AtomicBool>, gate: PauseGate)
    requires
        state.wf(),
{
    let pool = threadpool::ThreadPool::new(1);
    let mut worker = state;
    pool.execute(move || {
        let _ = worker.spin(flag, gate);
    });
}

/// Relies on std::time::SystemTime::now: the wall clock, read as whole
/// milliseconds since the Unix epoch (zero if the clock reads earlier).
#[verifier::external_body]
fn now_ms() -> u64 {
    match std::time::SystemTime::now().duration_since(std::time::UNIX_EPOCH) {
        Ok(d) => d.as_millis() as u64,
        Err(_) => 0,
    }
}

/// `b` milliseconds after `a`, capped at the clock type's range.
fn add_ms(a: u64, b: u64) -> (r: u64)
    ensures
        r >= a,
{
    if a <= u64::MAX - b {
        a + b
    } else {
        u64::MAX
    }
}

/// Milliseconds from `earlier` to `later`, zero when the clock moved
/// backwards.
fn elapsed_ms(earlier: u64, later: u64) -> (r: u64)
    ensures
        r == if later >= earlier {
            later - earlier
        } else {
            0
        },
{
    if later >= earlier {
        later - earlier
    } else {
        0
    }
}

/// The caller-facing control surface of the spinner. It owns the handle
/// side of the lifecycle: starting spawns a worker that runs the render
/// loop on a clone of the render state, the `set_` calls enqueue live
/// reconfiguration messages for that worker, and pause, resume and stop
/// drive the shared pause gate and running flag.
pub struct Spinner<L: SpinnerListener> {
    emitter: EventEmitter<L>,
    running: bool,
    running_flag: Arc<AtomicBool>,
    paused: bool,
    gate: PauseGate,
    state: SpinnerState,
    start_time_ms: Option<u64>,
    pause_start_time_ms: Option<u64>,
    pause_elapsed_ms: u64,
}

impl<L: SpinnerListener> Spinner<L> {
    /// Whether the handle is running: true exactly after a successful
    /// `start` with no successful `stop` since.
    pub closed spec fn spec_running(self) -> bool {
        self.running
    }

    /// Whether the spinner is paused: true exactly after a successful
    /// `pause` with no successful `resume` since.
    pub closed spec fn spec_paused(self) -> bool {
        self.paused
    }

    /// Total milliseconds spent paused over the spinner's lifetime.
    pub closed spec fn spec_pause_elapsed(self) -> u64 {
        self.pause_elapsed_ms
    }

    /// The registered (event, listener) pairs, in registration order.
    pub closed spec fn spec_listeners(self) -> Seq<(Event, L)> {
        self.emitter.spec_entries()
    }

    /// The handle is fit for use: its render state is fit to render.
    pub closed spec fn wf(self) -> bool {
        self.state.wf()
    }

    /// The handle's own render state: the snapshot the worker is given a
    /// clone of at start, and the source of the enqueued reconfiguration.
    pub closed spec fn spec_state(self) -> StateView {
        self.state@
    }

    /// A new spinner for `message`: not running, not paused, with no
    /// listeners; its render state holds the message's text and trailing
    /// dot run, the default style's frames, left alignment, colored frame
    /// and dots, uncolored text, no explicit interval, standard output.
    pub fn new(message: &str) -> (r: Self)
        ensures
            r.wf(),
            !r.spec_running(),
            !r.spec_paused(),
            r.spec_pause_elapsed() == 0,
            r.spec_listeners() == Seq::<(Event, L)>::empty(),
            r.spec_state().text == spec_text_of(message@),
            r.spec_state().dots == spec_dots_of(message@),
            r.spec_state().style == SpinnerStyle::CircleHalves,
            r.spec_state().frames.len() == 4,
            r.spec_state().frame_duration == 50,
            r.spec_state().alignment == Alignment::Left,
            r.spec_state().style_color is Some,
            r.spec_state().text_color is None,
            r.spec_state().dot_color is Some,
            r.spec_state().interval_us is None,
            r.spec_state().output == SpinnerStream::Stdout,
    {
        Spinner {
            emitter: EventEmitter::new(),
            running: false,
            running_flag: Arc::new(AtomicBool::new(false)),
            paused: false,
            gate: PauseGate::new(),
            state: SpinnerState::new(message),
            start_time_ms: None,
            pause_start_time_ms: None,
            pause_elapsed_ms: 0,
        }
    }

    /// Starts the spinner: spawns the render worker on a clone of the
    /// render state and sets the running flag. Fails, changing nothing,
    /// when the spinner is already running; succeeds otherwise.
    pub fn start(&mut self) -> (r: SpinnerResult<()>)
        requires
            old(self).wf(),
        ensures
            final(self).wf(),
            r is Ok <==> !old(self).spec_running(),
            final(self).spec_running(),
            final(self).spec_paused() == old(self).spec_paused(),
            final(self).spec_pause_elapsed() == old(self).spec_pause_elapsed(),
            same_events(old(self).spec_listeners(), final(self).spec_listeners()),
            final(self).spec_state() == old(self).spec_state(),
            r matches Err(e) ==> e@ == "Spinner is already running"@ && *final(self) == *old(
                self,
            ),
    {
        if self.running {
            return Err(SpinnerError::new("Spinner is already running"));
        }
        self.start_time_ms = Some(now_ms());
        self.emitter.emit(Event::Start, &EventPayload::Start);
        let flag = arc_flag_clone(&self.running_flag);
        let gate = self.gate.clone();
        let worker_state = self.state.clone();
        spawn_render_worker(worker_state, flag, gate);
        self.running_flag.store(true, core::sync::atomic::Ordering::SeqCst);
        self.running = true;
        Ok(())
    }

    /// Stops the spinner: enqueues the stop message, clears the running
    /// flag, and notifies stop listeners with the elapsed run time. Fails,
    /// changing nothing, when the spinner is not running; when it is, it
    /// fails only if the stop message cannot be enqueued, and the spinner
    /// then stays running.
    pub fn stop(&mut self) -> (r: SpinnerResult<()>)
        requires
            old(self).wf(),
        ensures
            final(self).wf(),
            r is Ok ==> old(self).spec_running(),
            final(self).spec_running() == (old(self).spec_running() && r is Err),
            final(self).spec_paused() == old(self).spec_paused(),
            final(self).spec_pause_elapsed() == old(self).spec_pause_elapsed(),
            same_events(old(self).spec_listeners(), final(self).spec_listeners()),
            final(self).spec_state() == old(self).spec_state(),
            !old(self).spec_running() ==> *final(self) == *old(self) && (r matches Err(e)
                && e@ == "Spinner is not running"@),
            old(self).spec_running() && r is Err ==> (r matches Err(e) ==> e@
                == "Failed to send stop message through channel"@),
    {
        if !self.running {
            return Err(SpinnerError::new("Spinner is not running"));
        }
        match self.state.stop() {
            Ok(()) => {},
            Err(e) => {
                return Err(e);
            },
        }
        self.running_flag.store(false, core::sync::atomic::Ordering::SeqCst);
        self.running = false;

        let elapsed: u64 = match self.start_time_ms {
            Some(t) => elapsed_ms(t, now_ms()),
            None => 0,
        };
        self.start_time_ms = None;

        self.emitter.emit(Event::Stop, &EventPayload::Stop { elapsed_ms: elapsed });
        Ok(())
    }

    /// Pauses the spinner: sets the pause gate, so the render loop blocks
    /// before its next tick. Succeeds exactly when the spinner is running
    /// and not yet paused; fails, changing nothing, otherwise.
    pub fn pause(&mut self) -> (r: SpinnerResult<()>)
        requires
            old(self).wf(),
        ensures
            final(self).wf(),
            r is Ok <==> (old(self).spec_running() && !old(self).spec_paused()),
            final(self).spec_running() == old(self).spec_running(),
            final(self).spec_paused() == (old(self).spec_paused() || r is Ok),
            final(self).spec_pause_elapsed() == old(self).spec_pause_elapsed(),
            same_events(old(self).spec_listeners(), final(self).spec_listeners()),
            final(self).spec_state() == old(self).spec_state(),
            !old(self).spec_running() ==> *final(self) == *old(self) && (r matches Err(e)
                && e@ == "Spinner is not running"@),
            old(self).spec_running() && old(self).spec_paused() ==> *final(self) == *old(self)
                && (r matches Err(e) && e@ == "Spinner is already paused"@),
    {
        if !self.running {
            return Err(SpinnerError::new("Spinner is not running"));
        }
        if self.paused {
            return Err(SpinnerError::new("Spinner is already paused"));
        }
        self.gate.set_paused(true);
        self.paused = true;

        let now = now_ms();
        self.pause_start_time_ms = Some(now);
        let elapsed: Option<u64> = match self.start_time_ms {
            Some(t) => Some(elapsed_ms(t, now)),
            None => None,
        };

        self.emitter.emit(Event::Pause, &EventPayload::Pause { elapsed_ms: elapsed });
        Ok(())
    }

    /// Resumes the spinner: clears the pause gate and wakes the render
    /// loop, accumulating the time spent paused. Succeeds exactly when the
    /// spinner is running and paused; fails, changing nothing, otherwise.
    pub fn resume(&mut self) -> (r: SpinnerResult<()>)
        requires
            old(self).wf(),
        ensures
            final(self).wf(),
            r is Ok <==> (old(self).spec_running() && old(self).spec_paused()),
            final(self).spec_running() == old(self).spec_running(),
            final(self).spec_paused() == (old(self).spec_paused() && r is Err),
            r is Ok ==> final(self).spec_pause_elapsed() >= old(self).spec_pause_elapsed(),
            same_events(old(self).spec_listeners(), final(self).spec_listeners()),
            final(self).spec_state() == old(self).spec_state(),
            !old(self).spec_running() ==> *final(self) == *old(self) && (r matches Err(e)
                && e@ == "Spinner is not running"@),
            old(self).spec_running() && !old(self).spec_paused() ==> *final(self) == *old(self)
                && (r matches Err(e) && e@ == "Spinner is not paused"@),
    {
        if !self.running {
            return Err(SpinnerError::new("Spinner is not running"));
        }
        if !self.paused {
            return Err(SpinnerError::new("Spinner is not paused"));
        }
        self.gate.set_paused(false);
        self.paused = false;

        match self.pause_start_time_ms {
            Some(t) => {
                let d = elapsed_ms(t, now_ms());
                self.pause_elapsed_ms = add_ms(self.pause_elapsed_ms, d);
            },
            None => {},
        }
        self.pause_start_time_ms = None;

        self.emitter.emit(
            Event::Resume,
            &EventPayload::Resume { paused_ms: self.pause_elapsed_ms },
        );
        Ok(())
    }

    /// Whether the last successful lifecycle transition left the spinner
    /// running.
    pub fn is_running(&self) -> (r: bool)
        ensures
            r == self.spec_running(),
    {
        self.running
    }

    /// Whether the spinner is currently paused.
    pub fn is_paused(&self) -> (r: bool)
        ensures
            r == self.spec_paused(),
    {
        self.paused
    }

    /// Registers a listener notified at every successful start.
    pub fn on_start(&mut self, listener: L)
        ensures
            final(self).spec_listeners() == old(self).spec_listeners().push(
                (Event::Start, listener),
            ),
            final(self).spec_running() == old(self).spec_running(),
            final(self).spec_paused() == old(self).spec_paused(),
            final(self).wf() == old(self).wf(),
    {
        self.emitter.on(Event::Start, listener);
    }

    /// Registers a listener notified at every successful stop, with the
    /// elapsed run time.
    pub fn on_stop(&mut self, listener: L)
        ensures
            final(self).spec_listeners() == old(self).spec_listeners().push(
                (Event::Stop, listener),
            ),
            final(self).spec_running() == old(self).spec_running(),
            final(self).spec_paused() == old(self).spec_paused(),
            final(self).wf() == old(self).wf(),
    {
        self.emitter.on(Event::Stop, listener);
    }

    /// Registers a listener notified at every successful pause, with the
    /// time since start when known.
    pub fn on_pause(&mut self, listener: L)
        ensures
            final(self).spec_listeners() == old(self).spec_listeners().push(
                (Event::Pause, listener),
            ),
            final(self).spec_running() == old(self).spec_running(),
            final(self).spec_paused() == old(self).spec_paused(),
            final(self).wf() == old(self).wf(),
    {
        self.emitter.on(Event::Pause, listener);
    }

    /// Registers a listener notified at every successful resume, with the
    /// accumulated pause time.
    pub fn on_resume(&mut self, listener: L)
        ensures
            final(self).spec_listeners() == old(self).spec_listeners().push(
                (Event::Resume, listener),
            ),
            final(self).spec_running() == old(self).spec_running(),
            final(self).spec_paused() == old(self).spec_paused(),
            final(self).wf() == old(self).wf(),
    {
        self.emitter.on(Event::Resume, listener);
    }

    /// Sends a new message text to the render loop, which splits off its
    /// trailing dots and restarts the dot cycle when it applies it.
    pub fn set_message(&mut self, message: &str) -> (r: SpinnerResult<()>)
        ensures
            *final(self) == *old(self),
            r matches Err(e) ==> e@ == "Failed to send message through channel"@,
    {
        self.state.update(UpdateMessage::Message(message.to_owned()))
    }

    /// Sends a new animation style to the render loop, which replaces the
    /// frame set and its default interval and restarts the frame cycle.
    pub fn set_style(&mut self, style: SpinnerStyle) -> (r: SpinnerResult<()>)
        ensures
            *final(self) == *old(self),
            r matches Err(e) ==> e@ == "Failed to send message through channel"@,
    {
        self.state.update(UpdateMessage::Style(style))
    }

    /// Sends a new color scheme for the frame glyph, the text and the dot
    /// run; an absent color leaves that part undecorated.
    pub fn set_color_scheme(
        &mut self,
        style_color: Option<Color>,
        message_color: Option<Color>,
        dots_color: Option<Color>,
    ) -> (r: SpinnerResult<()>)
        ensures
            *final(self) == *old(self),
            r matches Err(e) ==> e@ == "Failed to send message through channel"@,
    {
        self.state.update(UpdateMessage::Colors(style_color, message_color, dots_color))
    }

    /// Flips the shared direction flag directly; the render loop reads it
    /// once per tick, so no message is needed.
    pub fn set_reverse(&mut self, reverse: bool) -> (r: SpinnerResult<()>)
        ensures
            *final(self) == *old(self),
            r is Ok,
    {
        self.state.set_reverse(reverse);
        Ok(())
    }

    /// Sends a new alignment to the render loop.
    pub fn set_alignment(&mut self, alignment: Alignment) -> (r: SpinnerResult<()>)
        ensures
            *final(self) == *old(self),
            r matches Err(e) ==> e@ == "Failed to send message through channel"@,
    {
        self.state.update(UpdateMessage::Alignment(alignment))
    }

    /// Sends a frames-per-second rate; it overrides the frame set's
    /// intrinsic duration for subsequent ticks until overridden again.
    pub fn set_fps(&mut self, fps: u32) -> (r: SpinnerResult<()>)
        ensures
            *final(self) == *old(self),
            r matches Err(e) ==> e@ == "Failed to send message through channel"@,
    {
        self.state.update(UpdateMessage::FramesPerSecond(fps))
    }

    /// Sends a speed in full cycles per minute; it overrides the frame
    /// set's intrinsic duration for subsequent ticks until overridden
    /// again.
    pub fn set_speed(&mut self, rpm: u32) -> (r: SpinnerResult<()>)
        ensures
            *final(self) == *old(self),
            r matches Err(e) ==> e@ == "Failed to send message through channel"@,
    {
        self.state.update(UpdateMessage::Speed(rpm))
    }

    /// Sends an explicit frame list to the render loop, which restarts
    /// both cycles when it applies it. An empty list is a configuration
    /// error and is rejected here.
    pub fn set_frames(&mut self, frames: &[&str]) -> (r: SpinnerResult<()>)
        ensures
            *final(self) == *old(self),
            frames@.len() == 0 ==> (r matches Err(e) && e@ == "Frames cannot be empty"@),
            r matches Err(e) ==> e@ == "Frames cannot be empty"@ || e@
                == "Failed to send message through channel"@,
    {
        if frames.len() == 0 {
            return Err(SpinnerError::new("Frames cannot be empty"));
        }
        let mut owned: Vec<String> = Vec::new();
        let n = frames.len();
        let mut i: usize = 0;
        while i < n
            invariant
                i <= n,
                n == frames@.len(),
            decreases n - i,
        {
            owned.push(frames[i].to_owned());
            i = i + 1;
        }
        self.state.update(UpdateMessage::Frames(owned))
    }

    /// Sends a new output stream selector to the render loop.
    pub fn set_output_stream(&mut self, stream: SpinnerStream) -> (r: SpinnerResult<()>)
        ensures
            *final(self) == *old(self),
            r matches Err(e) ==> e@ == "Failed to send message through channel"@,
    {
        self.state.update(UpdateMessage::Stream(stream))
    }
}

impl<L: SpinnerListener> Drop for Spinner<L> {
    /// Dropping a running handle performs a best-effort implicit stop:
    /// the shared running flag is cleared and the stop message enqueued,
    /// swallowing any failure, so the worker exits at its next tick.
    /// Teardown deliberately does neither notify stop listeners nor
    /// record the elapsed time: a listener's panic must not unwind out of
    /// destruction, which the verifier requires to be unwind-free.
    #[verifier::external_body]
    fn drop(&mut self)
        opens_invariants none
        no_unwind
    {
        if self.running {
            self.running = false;
            self.running_flag.store(false, core::sync::atomic::Ordering::SeqCst);
            let _ = self.state.stop();
        }
    }
}

} // verus!
