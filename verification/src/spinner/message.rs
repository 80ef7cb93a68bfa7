use vstd::prelude::*;

use colored::Color;

use crate::error::SpinnerResult;
use crate::spinner::alignment::Alignment;
use crate::spinner::builtins::SpinnerStyle;
use crate::spinner::stream::SpinnerStream;

verus! {

/// Relies on std's Clone for Result: the clone is on the same side and
/// holds a clone of the carried value.
pub assume_specification<T: Clone, E: Clone>[ <Result<T, E> as Clone>::clone ](
    r: &Result<T, E>,
) -> (res: Result<T, E>)
    ensures
        match (r, &res) {
            (Ok(a), Ok(b)) => vstd::pervasive::cloned(*a, *b),
            (Err(a), Err(b)) => vstd::pervasive::cloned(*a, *b),
            _ => false,
        },
;

/// A control message consumed by the render loop: either the stop signal
/// or one reconfiguration. A malformed update (the `Err` case) tells the
/// loop that delivery was corrupted and is treated as fatal.
#[derive(Debug, Clone)]
pub enum SpinnerMessage {
    Stop,
    Update(SpinnerResult<UpdateMessage>),
}

/// One live reconfiguration of the render state, one case per mutable
/// field. Speeds are integers: frames per second, or full cycles per
/// minute.
#[derive(Debug, Clone)]
pub enum UpdateMessage {
    Message(String),
    Style(SpinnerStyle),
    Alignment(Alignment),
    Colors(Option<Color>, Option<Color>, Option<Color>),
    FramesPerSecond(u32),
    Speed(u32),
    Frames(Vec<String>),
    Stream(SpinnerStream),
}

} // verus!
