use vstd::prelude::*;

verus! {

// colored's Color is carried through the render state and applied at the
// moment a line is written; its values are opaque to the verifier.
#[verifier::external_type_specification]
#[verifier::external_body]
pub struct ExColor(colored::Color);

/// Relies on colored::Color: the magenta variant, the spinner's default
/// accent color.
#[verifier::external_body]
pub(crate) fn magenta() -> colored::Color {
    colored::Color::Magenta
}

/// Relies on colored's Colorize::color: wraps `text` in the escape codes
/// that render it in `color`, or hands it back undecorated when the
/// process environment has coloring disabled.
#[verifier::external_body]
pub(crate) fn colorize(text: &str, color: colored::Color) -> String {
    colored::Colorize::color(text, color).to_string()
}

} // verus!
