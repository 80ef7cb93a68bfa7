use spinner::SpinnerStream;

#[test]
fn test_spinner_stream_default() {
    let stream = SpinnerStream::default();
    assert!(matches!(stream, SpinnerStream::Stdout));
}

#[test]
fn test_spinner_stream_write_stdout() {
    let stream = SpinnerStream::Stdout;
    let message = "Hello, world!";
    assert_eq!(stream.write(message.as_bytes()).unwrap(), message.len());
}

#[test]
fn test_spinner_stream_write_stderr() {
    let stream = SpinnerStream::Stderr;
    let message = "Hello, world!";
    assert_eq!(stream.write(message.as_bytes()).unwrap(), message.len());
}

#[test]
fn test_spinner_stream_flush_stdout() {
    let stream = SpinnerStream::Stdout;
    assert!(stream.flush().is_ok());
}

#[test]
fn test_spinner_stream_flush_stderr() {
    let stream = SpinnerStream::Stderr;
    assert!(stream.flush().is_ok());
}

#[test]
fn test_str_into_spinner_stream_valid() {
    let stdout = SpinnerStream::from_name("stdout").unwrap();
    assert!(matches!(stdout, SpinnerStream::Stdout));

    let stderr = SpinnerStream::from_name("stderr").unwrap();
    assert!(matches!(stderr, SpinnerStream::Stderr));
}

#[test]
fn test_str_into_spinner_stream_invalid_name() {
    assert!(SpinnerStream::from_name("invalid").is_none());
}
