use spinner::{
    next_dot_count, next_frame_index, EventPayload, Spinner, SpinnerListener, SpinnerStyle,
};
use std::sync::{Arc, Mutex};

/// Blocks briefly so a dropped spinner's worker can observe the stop and
/// exit before the test harness prints its summary; the worker writes to
/// the same stream.
fn settle() {
    let (_tx, rx) = std::sync::mpsc::channel::<()>();
    let _ = rx.recv_timeout(std::time::Duration::from_millis(400));
}

/// A listener that raises a shared flag when it is notified.
struct FlagListener {
    flag: Arc<Mutex<bool>>,
}

impl SpinnerListener for FlagListener {
    fn on_event(&mut self, _payload: &EventPayload) {
        *self.flag.lock().unwrap() = true;
    }
}

/// A listener that records the payloads it receives.
struct RecordingListener {
    payloads: Arc<Mutex<Vec<EventPayload>>>,
}

impl SpinnerListener for RecordingListener {
    fn on_event(&mut self, payload: &EventPayload) {
        self.payloads.lock().unwrap().push(*payload);
    }
}

#[test]
fn test_new() {
    let spinner: Spinner<FlagListener> = Spinner::new("Loading ...");
    assert_eq!(spinner.is_running(), false);
    assert_eq!(spinner.is_paused(), false);
}

#[test]
fn test_start_spinner() {
    {
        let mut spinner: Spinner<FlagListener> = Spinner::new("Loading ...");
        let result = spinner.start();
        assert_eq!(result.is_ok(), true);
        assert_eq!(spinner.is_running(), true);
    }
    settle();
}

#[test]
fn test_on_start_listener() {
    {
        let mut spinner: Spinner<FlagListener> = Spinner::new("Loading ...");
        let listener_called = Arc::new(Mutex::new(false));

        spinner.on_start(FlagListener { flag: listener_called.clone() });
        spinner.start().unwrap();
        assert!(*listener_called.lock().unwrap());
    }
    settle();
}

#[test]
fn test_on_start_listener_not_called() {
    let mut spinner: Spinner<FlagListener> = Spinner::new("Loading ...");
    let listener_called = Arc::new(Mutex::new(false));
    spinner.on_start(FlagListener { flag: listener_called.clone() });
    assert!(!*listener_called.lock().unwrap());
}

#[test]
fn test_start_running_spinner() {
    {
        let mut spinner: Spinner<FlagListener> = Spinner::new("Loading ...");
        spinner.start().unwrap();
        let result = spinner.start();
        assert_eq!(result.is_err(), true);
        assert_eq!(spinner.is_running(), true);
    }
    settle();
}

#[test]
fn test_stop_spinner() {
    {
        let mut spinner: Spinner<FlagListener> = Spinner::new("Loading ...");
        spinner.start().unwrap();
        let result = spinner.stop();
        assert_eq!(result.is_ok(), true);
        assert_eq!(spinner.is_running(), false);
    }
    settle();
}

#[test]
fn test_on_stop_listener_not_called() {
    let mut spinner: Spinner<FlagListener> = Spinner::new("Loading ...");
    let listener_called = Arc::new(Mutex::new(false));
    spinner.on_stop(FlagListener { flag: listener_called.clone() });
    assert!(!*listener_called.lock().unwrap());
}

#[test]
fn test_stop_stopped_spinner() {
    let mut spinner: Spinner<FlagListener> = Spinner::new("Loading ...");
    let result = spinner.stop();
    assert_eq!(result.is_err(), true);
    assert_eq!(spinner.is_running(), false);
}

#[test]
fn test_start_stop() {
    {
        let mut spinner: Spinner<FlagListener> = Spinner::new("Loading ...");
        assert_eq!(spinner.start().is_ok(), true);
        assert_eq!(spinner.is_running(), true);
        assert_eq!(spinner.start().is_err(), true);
        assert_eq!(spinner.stop().is_ok(), true);
        assert_eq!(spinner.is_running(), false);
    }
    settle();
}

#[test]
fn test_start_multiple_times() {
    {
        let mut spinner: Spinner<FlagListener> = Spinner::new("Loading ...");
        assert!(!spinner.is_running());

        spinner.start().unwrap();
        assert!(spinner.is_running());

        let result = spinner.start();
        assert!(result.is_err());
        assert_eq!(result.unwrap_err().message(), "Spinner is already running");

        spinner.stop().unwrap();
        assert!(!spinner.is_running());
    }
    settle();
}

#[test]
fn test_stop_multiple_times() {
    {
        let mut spinner: Spinner<FlagListener> = Spinner::new("Loading ...");
        assert!(!spinner.is_running());

        let result = spinner.stop();
        assert!(result.is_err());
        assert_eq!(result.unwrap_err().message(), "Spinner is not running");

        spinner.start().unwrap();
        assert!(spinner.is_running());

        spinner.stop().unwrap();
        assert!(!spinner.is_running());

        let result = spinner.stop();
        assert!(result.is_err());
        assert_eq!(result.unwrap_err().message(), "Spinner is not running");

        spinner.start().unwrap();
        assert!(spinner.is_running());

        spinner.stop().unwrap();
        assert!(!spinner.is_running());
    }
    settle();
}

#[test]
fn test_pause_spinner() {
    {
        let mut spinner: Spinner<FlagListener> = Spinner::new("Loading ...");
        spinner.start().unwrap();
        assert_eq!(spinner.pause().is_ok(), true);
    }
    settle();
}

#[test]
fn test_on_pause_listener() {
    {
        let mut spinner: Spinner<RecordingListener> = Spinner::new("Loading ...");
        let payloads = Arc::new(Mutex::new(Vec::new()));
        spinner.start().unwrap();
        spinner.on_pause(RecordingListener { payloads: payloads.clone() });
        spinner.pause().unwrap();

        let seen = payloads.lock().unwrap();
        assert_eq!(seen.len(), 1);
        println!("duration: {:?}", seen[0]);
        assert!(matches!(seen[0], EventPayload::Pause { elapsed_ms: Some(_) }));
    }
    settle();
}

#[test]
fn test_pause_paused_spinner() {
    {
        let mut spinner: Spinner<FlagListener> = Spinner::new("Loading ...");
        spinner.start().unwrap();
        spinner.pause().unwrap();
        assert_eq!(spinner.pause().is_err(), true);
    }
    settle();
}

#[test]
fn test_pause_stopped_spinner() {
    let mut spinner: Spinner<FlagListener> = Spinner::new("Loading ...");
    assert_eq!(spinner.pause().is_err(), true);
}

#[test]
fn test_resume_spinner() {
    {
        let mut spinner: Spinner<FlagListener> = Spinner::new("Loading ...");
        spinner.start().unwrap();
        spinner.pause().unwrap();
        assert_eq!(spinner.resume().is_ok(), true);
    }
    settle();
}

#[test]
fn test_resume_running_spinner() {
    {
        let mut spinner: Spinner<FlagListener> = Spinner::new("Loading ...");
        spinner.start().unwrap();
        assert_eq!(spinner.resume().is_err(), true);
    }
    settle();
}

#[test]
fn test_resume_unpaused_spinner() {
    {
        let mut spinner: Spinner<FlagListener> = Spinner::new("Loading ...");
        spinner.start().unwrap();
        assert_eq!(spinner.resume().is_err(), true);
    }
    settle();
}

#[test]
fn test_resume_stopped_spinner() {
    let mut spinner: Spinner<FlagListener> = Spinner::new("Loading ...");
    assert_eq!(spinner.resume().is_err(), true);
}

#[test]
fn test_pause_resume_multiple_times() {
    {
        let mut spinner: Spinner<FlagListener> = Spinner::new("Loading ...");
        assert!(spinner.start().is_ok());
        assert!(spinner.pause().is_ok());
        assert!(spinner.resume().is_ok());
        assert!(spinner.pause().is_ok());
        assert!(spinner.resume().is_ok());
        assert!(spinner.stop().is_ok());
    }
    settle();
}

#[test]
fn test_resume_while_not_paused() {
    {
        let mut spinner: Spinner<FlagListener> = Spinner::new("Loading ...");
        assert!(spinner.start().is_ok());
        assert!(spinner.resume().is_err());
        assert!(spinner.stop().is_ok());
    }
    settle();
}

#[test]
fn test_drop() {
    {
        let mut spinner: Spinner<FlagListener> = Spinner::new("Loading ...");
        assert!(spinner.start().is_ok());
        drop(spinner);
    }
    settle();
}

#[test]
fn test_drop_is_quiet() {
    {
        // Teardown is deliberately silent: dropping a handle, running or
        // not, notifies no listener.
        let mut running: Spinner<FlagListener> = Spinner::new("Loading ...");
        let stop_seen = Arc::new(Mutex::new(false));
        running.on_stop(FlagListener { flag: stop_seen.clone() });
        running.start().unwrap();
        drop(running);
        assert!(!*stop_seen.lock().unwrap());

        let mut idle: Spinner<FlagListener> = Spinner::new("Loading ...");
        let idle_seen = Arc::new(Mutex::new(false));
        idle.on_stop(FlagListener { flag: idle_seen.clone() });
        drop(idle);
        assert!(!*idle_seen.lock().unwrap());
    }
    settle();
}

#[test]
fn test_set_frames_rejects_empty() {
    let mut spinner: Spinner<FlagListener> = Spinner::new("Loading ...");
    let empty: [&str; 0] = [];
    let result = spinner.set_frames(&empty);
    assert!(result.is_err());
    assert_eq!(result.unwrap_err().message(), "Frames cannot be empty");
}

#[test]
fn test_set_calls_succeed() {
    let mut spinner: Spinner<FlagListener> = Spinner::new("Loading ...");
    assert!(spinner.set_message("Working...").is_ok());
    assert!(spinner.set_style(SpinnerStyle::Dots).is_ok());
    assert!(spinner.set_alignment(spinner::Alignment::Center).is_ok());
    assert!(spinner
        .set_color_scheme(Some(spinner::Color::Cyan), None, Some(spinner::Color::Cyan))
        .is_ok());
    assert!(spinner.set_fps(20).is_ok());
    assert!(spinner.set_speed(120).is_ok());
    assert!(spinner.set_frames(&["a", "b"]).is_ok());
    assert!(spinner.set_output_stream(spinner::SpinnerStream::Stderr).is_ok());
    assert!(spinner.set_reverse(true).is_ok());
}

#[test]
fn test_full_lifecycle_scenario() {
    {
        // A spinner with message "Loading..." and a three-frame set: the frame
        // index cycles 0, 1, 2 and wraps; the displayed dot run grows from
        // nothing to the three stored dots and resets on the period; pausing
        // and resuming keep the spinner running; stopping ends the run.
        let mut spinner: Spinner<FlagListener> = Spinner::new("Loading...");
        spinner.set_frames(&["f0", "f1", "f2"]).unwrap();
        spinner.set_fps(10).unwrap();

        spinner.start().unwrap();
        assert!(spinner.is_running());

        // The tick pipeline for three frames, as the worker steps it.
        let mut index = 0;
        let mut indices = Vec::new();
        for _ in 0..4 {
            indices.push(index);
            index = next_frame_index(index, 3, false);
        }
        assert_eq!(indices, [0, 1, 2, 0]);

        // The dot counter starts at zero and wraps on the period of 12;
        // the displayed run grows to the stored length (3) and then stays
        // capped until the counter wraps back to zero.
        let mut count = 0;
        let mut displayed = Vec::new();
        for _ in 0..13 {
            displayed.push(count.min(3));
            count = next_dot_count(count, 3);
        }
        assert_eq!(displayed, [0, 1, 2, 3, 3, 3, 3, 3, 3, 3, 3, 3, 0]);

        spinner.pause().unwrap();
        assert!(spinner.is_running());
        assert!(spinner.is_paused());

        spinner.resume().unwrap();
        assert!(spinner.is_running());
        assert!(!spinner.is_paused());

        spinner.stop().unwrap();
        assert!(!spinner.is_running());
    }
    settle();
}

#[test]
fn test_pause_resume_error_messages() {
    {
        let mut spinner: Spinner<FlagListener> = Spinner::new("Loading ...");
        assert_eq!(spinner.pause().unwrap_err().message(), "Spinner is not running");
        assert_eq!(spinner.resume().unwrap_err().message(), "Spinner is not running");

        spinner.start().unwrap();
        assert_eq!(spinner.resume().unwrap_err().message(), "Spinner is not paused");

        spinner.pause().unwrap();
        assert_eq!(spinner.pause().unwrap_err().message(), "Spinner is already paused");

        spinner.resume().unwrap();
        spinner.stop().unwrap();
    }
    settle();
}

#[test]
fn test_set_reverse_direction_pipeline() {
    {
        let mut spinner: Spinner<FlagListener> = Spinner::new("Loading ...");
        assert!(spinner.set_reverse(true).is_ok());
        // With the flag set, the worker steps indices backward modulo the
        // frame count.
        assert_eq!(next_frame_index(0, 4, true), 3);
        assert_eq!(next_frame_index(3, 4, true), 2);
        assert!(spinner.set_reverse(false).is_ok());
        assert_eq!(next_frame_index(0, 4, false), 1);
    }
    settle();
}
