//! An animated terminal activity indicator ("spinner").
//!
//! A `Spinner` handle owns the caller-facing control surface: it spawns a
//! background worker that runs the render loop, and it forwards live
//! reconfiguration (text, frame set, speed, colors, alignment, output stream)
//! to that worker over a non-blocking message channel.

pub use colored::Color;
pub use error::{SpinnerError, SpinnerResult};
pub use event_emitter::EventEmitter;
pub use spinner::alignment::Alignment;
pub use spinner::builtins::{get_spinner_data, SpinnerData, SpinnerStyle};
pub use spinner::channel::Channel;
pub use spinner::event::{Event, EventPayload, SpinnerListener};
pub use spinner::message::{SpinnerMessage, UpdateMessage};
pub use spinner::state::{
    get_terminal_size, next_dot_count, next_frame_index, on_message, trim_trailing_dots,
    MessageAction, SpinnerState,
};
pub use spinner::stream::SpinnerStream;
pub use spinner::Spinner;

mod error;
mod event_emitter;
mod spinner;
