use vstd::prelude::*;

use crate::error::{SpinnerError, SpinnerResult};
use crate::spinner::text::str_eq;

verus! {

/// Selects the process stream that the spinner renders to.
#[derive(Debug, Clone, Copy, PartialEq, Eq, Structural)]
pub enum SpinnerStream {
    Stdout,
    Stderr,
}

/// The stream selected by `name`: "stdout" or "stderr", anything else none.
pub open spec fn spec_stream_from_name(name: Seq<char>) -> Option<SpinnerStream> {
    if name == "stdout"@ {
        Some(SpinnerStream::Stdout)
    } else if name == "stderr"@ {
        Some(SpinnerStream::Stderr)
    } else {
        None
    }
}

impl Default for SpinnerStream {
    /// By default the spinner renders to standard output.
    fn default() -> (r: Self)
        ensures
            r == SpinnerStream::Stdout,
    {
        SpinnerStream::Stdout
    }
}

impl SpinnerStream {
    /// Reads a stream selector from its name.
    pub fn from_name(value: &str) -> (r: Option<SpinnerStream>)
        ensures
            r == spec_stream_from_name(value@),
    {
        if str_eq(value, "stdout") {
            Some(SpinnerStream::Stdout)
        } else if str_eq(value, "stderr") {
            Some(SpinnerStream::Stderr)
        } else {
            None
        }
    }

    /// Writes the start of `buf` to the selected stream and reports how many
    /// bytes were accepted; that count never exceeds the buffer's length.
    pub fn write(&self, buf: &[u8]) -> (r: SpinnerResult<usize>)
        ensures
            r matches Ok(n) ==> n <= buf@.len(),
    {
        match self {
            SpinnerStream::Stdout => write_stdout(buf),
            SpinnerStream::Stderr => write_stderr(buf),
        }
    }

    /// Writes all of `text` to the selected stream.
    pub fn write_str(&self, text: &str) -> (r: SpinnerResult<()>) {
        match self {
            SpinnerStream::Stdout => write_all_stdout(text),
            SpinnerStream::Stderr => write_all_stderr(text),
        }
    }

    /// Flushes the selected stream.
    pub fn flush(&self) -> (r: SpinnerResult<()>) {
        match self {
            SpinnerStream::Stdout => flush_stdout(),
            SpinnerStream::Stderr => flush_stderr(),
        }
    }
}

/// Relies on std::io::Stdout::write: on success it returns how many bytes
/// were written, documented to never exceed the buffer's length.
#[verifier::external_body]
fn write_stdout(buf: &[u8]) -> (r: SpinnerResult<usize>)
    ensures
        r matches Ok(n) ==> n <= buf@.len(),
{
    std::io::Write::write(&mut std::io::stdout(), buf).map_err(|e| SpinnerError::new(&e.to_string()))
}

/// Relies on std::io::Stderr::write: on success it returns how many bytes
/// were written, documented to never exceed the buffer's length.
#[verifier::external_body]
fn write_stderr(buf: &[u8]) -> (r: SpinnerResult<usize>)
    ensures
        r matches Ok(n) ==> n <= buf@.len(),
{
    std::io::Write::write(&mut std::io::stderr(), buf).map_err(|e| SpinnerError::new(&e.to_string()))
}

/// Relies on std::io::Stdout::write_all: on success the whole text reached
/// the stream as one write under the stream's own lock.
#[verifier::external_body]
fn write_all_stdout(text: &str) -> (r: SpinnerResult<()>) {
    std::io::Write::write_all(&mut std::io::stdout(), text.as_bytes())
        .map_err(|e| SpinnerError::new(&e.to_string()))
}

/// Relies on std::io::Stderr::write_all: on success the whole text reached
/// the stream as one write under the stream's own lock.
#[verifier::external_body]
fn write_all_stderr(text: &str) -> (r: SpinnerResult<()>) {
    std::io::Write::write_all(&mut std::io::stderr(), text.as_bytes())
        .map_err(|e| SpinnerError::new(&e.to_string()))
}

/// Relies on std::io::Stdout::flush.
#[verifier::external_body]
fn flush_stdout() -> (r: SpinnerResult<()>) {
    std::io::Write::flush(&mut std::io::stdout()).map_err(|e| SpinnerError::new(&e.to_string()))
}

/// Relies on std::io::Stderr::flush.
#[verifier::external_body]
fn flush_stderr() -> (r: SpinnerResult<()>) {
    std::io::Write::flush(&mut std::io::stderr()).map_err(|e| SpinnerError::new(&e.to_string()))
}

} // verus!
