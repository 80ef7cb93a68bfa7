use spinner::SpinnerError;

#[test]
fn test_error_new_keeps_message() {
    let e = SpinnerError::new("something went wrong");
    assert_eq!(e.message(), "something went wrong");
}

#[test]
fn test_error_from_str() {
    let e = SpinnerError::from("not running");
    assert_eq!(e.message(), "not running");
}

#[test]
fn test_error_clone_keeps_message() {
    let e = SpinnerError::new("once");
    let f = e.clone();
    assert_eq!(f.message(), "once");
}
