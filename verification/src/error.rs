use vstd::prelude::*;

verus! {

/// An error returned by spinner lifecycle and configuration calls.
///
/// The error carries a human-readable message; the view of a `SpinnerError`
/// is the character sequence of that message.
#[derive(Debug, Clone)]
pub struct SpinnerError {
    message: String,
}

impl View for SpinnerError {
    type V = Seq<char>;

    closed spec fn view(&self) -> Seq<char> {
        self.message@
    }
}

impl SpinnerError {
    /// Builds an error carrying `message`.
    pub fn new(message: &str) -> (r: Self)
        ensures
            r@ == message@,
    {
        SpinnerError { message: message.to_owned() }
    }

    /// The error's message.
    pub fn message(&self) -> (r: &String)
        ensures
            r@ == self@,
    {
        &self.message
    }
}

impl From<&str> for SpinnerError {
    /// Builds an error carrying the given message.
    fn from(error_message: &str) -> (r: Self)
        ensures
            r@ == error_message@,
    {
        SpinnerError::new(error_message)
    }
}

impl vstd::std_specs::convert::FromSpecImpl<&str> for SpinnerError {
    /// A `String`'s identity is not fixed by its view, so no spec-level
    /// conversion function is given; the impl above carries the contract
    /// (`r@ == error_message@`) directly.
    open spec fn obeys_from_spec() -> bool {
        false
    }

    open spec fn from_spec(v: &str) -> SpinnerError {
        arbitrary()
    }
}

pub type SpinnerResult<T> = Result<T, SpinnerError>;

} // verus!
