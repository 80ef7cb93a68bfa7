use vstd::prelude::*;
use vstd::string::StrSliceExecFns;
use vstd::string::StringExecFns;

verus! {

/// Horizontal placement of the rendered line within the terminal.
#[derive(Debug, Clone, Copy, PartialEq, Eq, Structural)]
pub enum Alignment {
    Left,
    Center,
    Right,
}

/// The number of leading spaces that places content of display width
/// `text_width` inside a terminal of width `terminal_width` under alignment
/// `a`: none on the left, all of the free width on the right, half of it when
/// centering.
pub open spec fn spec_padding(a: Alignment, terminal_width: int, text_width: int) -> int {
    match a {
        Alignment::Left => 0,
        Alignment::Center => (terminal_width - text_width) / 2,
        Alignment::Right => terminal_width - text_width,
    }
}

/// `a` equals `b`, or `a` is an ASCII capital whose lowercase form is `b`.
pub open spec fn char_lower_matches(a: char, b: char) -> bool {
    a == b || (65 <= a as u32 <= 90 && a as u32 + 32 == b as u32)
}

/// `s` equals `t` once the ASCII capitals of `s` are lowercased.
pub open spec fn lower_matches(s: Seq<char>, t: Seq<char>) -> bool {
    s.len() == t.len() && forall|i: int| 0 <= i < s.len() ==> char_lower_matches(s[i], #[trigger] t[i])
}

/// A string of `n` spaces.
fn spaces(n: usize) -> (r: String)
    ensures
        r@ == Seq::new(n as nat, |i: int| ' '),
{
    let mut s = String::new();
    let mut i: usize = 0;
    while i < n
        invariant
            i <= n,
            s@ =~= Seq::new(i as nat, |j: int| ' '),
        decreases n - i,
    {
        proof {
            reveal_strlit(" ");
        }
        s.append(" ");
        i = i + 1;
    }
    proof {
        assert(s@ =~= Seq::new(n as nat, |i: int| ' '));
    }
    s
}

/// `s` equals `t` after ASCII-lowercasing `s`.
fn eq_lowered(s: &str, t: &str) -> (r: bool)
    ensures
        r == lower_matches(s@, t@),
{
    let n = s.unicode_len();
    if n != t.unicode_len() {
        return false;
    }
    let mut i: usize = 0;
    while i < n
        invariant
            i <= n,
            n == s@.len(),
            n == t@.len(),
            forall|j: int| 0 <= j < i ==> char_lower_matches(s@[j], #[trigger] t@[j]),
        decreases n - i,
    {
        let a = s.get_char(i);
        let b = t.get_char(i);
        let au = a as u32;
        let bu = b as u32;
        if !(a == b || (65 <= au && au <= 90 && au + 32 == bu)) {
            return false;
        }
        i = i + 1;
    }
    true
}

impl Alignment {
    /// The run of spaces written before the rendered content.
    pub fn get_horizontal_padding(&self, terminal_width: usize, text_width: usize) -> (r: String)
        requires
            *self is Left || text_width <= terminal_width,
        ensures
            r@ == Seq::new(
                spec_padding(*self, terminal_width as int, text_width as int) as nat,
                |i: int| ' ',
            ),
    {
        let padding: usize = match self {
            Alignment::Left => 0,
            Alignment::Center => (terminal_width - text_width) / 2,
            Alignment::Right => terminal_width - text_width,
        };
        spaces(padding)
    }

    /// The alignment's lowercase name.
    pub fn name(&self) -> (r: &'static str)
        ensures
            r@ == spec_alignment_name(*self),
    {
        match self {
            Alignment::Left => "left",
            Alignment::Center => "center",
            Alignment::Right => "right",
        }
    }
}

/// The lowercase name of each alignment.
pub open spec fn spec_alignment_name(a: Alignment) -> Seq<char> {
    match a {
        Alignment::Left => "left"@,
        Alignment::Center => "center"@,
        Alignment::Right => "right"@,
    }
}

impl Default for Alignment {
    /// The default alignment keeps the spinner at the left edge.
    fn default() -> (r: Self)
        ensures
            r == Alignment::Left,
    {
        Alignment::Left
    }
}

impl From<&str> for Alignment {
    /// Reads an alignment from its case-insensitive name; anything other
    /// than "center" or "right" selects `Left`.
    fn from(value: &str) -> (r: Self) {
        if eq_lowered(value, "center") {
            Alignment::Center
        } else if eq_lowered(value, "right") {
            Alignment::Right
        } else {
            Alignment::Left
        }
    }
}

impl vstd::std_specs::convert::FromSpecImpl<&str> for Alignment {
    open spec fn obeys_from_spec() -> bool {
        true
    }

    open spec fn from_spec(v: &str) -> Alignment {
        if lower_matches(v@, "center"@) {
            Alignment::Center
        } else if lower_matches(v@, "right"@) {
            Alignment::Right
        } else {
            Alignment::Left
        }
    }
}

} // verus!
