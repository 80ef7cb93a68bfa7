use vstd::arithmetic::div_mod::{
    lemma_add_mod_noop, lemma_mod_add_multiples_vanish, lemma_mod_self_0, lemma_small_mod,
};
use vstd::prelude::*;
use vstd::string::{StrSliceExecFns, StringExecFns};

use colored::Color;
use std::sync::atomic::AtomicBool;
use std::sync::Arc;

use crate::error::{SpinnerError, SpinnerResult};
use crate::spinner::alignment::Alignment;
use crate::spinner::builtins::{get_spinner_data, SpinnerData, SpinnerStyle};
use crate::spinner::channel::Channel;
use crate::spinner::gate::PauseGate;
use crate::spinner::message::{SpinnerMessage, UpdateMessage};
use crate::spinner::paint::{colorize, magenta};
use crate::spinner::stream::SpinnerStream;

verus! {

// ---------------------------------------------------------------------------
// Trailing-dot extraction
// ---------------------------------------------------------------------------
/// The length of the run of '.' characters that ends `s`.
pub open spec fn dot_suffix_len(s: Seq<char>) -> nat
    decreases s.len(),
{
    if s.len() == 0 || s[s.len() - 1] != '.' {
        0
    } else {
        1 + dot_suffix_len(s.drop_last())
    }
}

/// The text part of `s`: everything before the trailing run of dots.
pub open spec fn spec_text_of(s: Seq<char>) -> Seq<char> {
    s.subrange(0, s.len() - dot_suffix_len(s))
}

/// The trailing run of dots of `s`.
pub open spec fn spec_dots_of(s: Seq<char>) -> Seq<char> {
    s.subrange(s.len() - dot_suffix_len(s), s.len() as int)
}

/// Every character of `s` is a literal dot.
pub open spec fn all_dots(s: Seq<char>) -> bool {
    forall|i: int| 0 <= i < s.len() ==> s[i] == '.'
}

proof fn lemma_dot_suffix_len_le(s: Seq<char>)
    ensures
        dot_suffix_len(s) <= s.len(),
    decreases s.len(),
{
    if s.len() == 0 || s[s.len() - 1] != '.' {
    } else {
        lemma_dot_suffix_len_le(s.drop_last());
    }
}

/// When every character from `k` on is a dot and the one before `k` (if
/// any) is not, the trailing dot run is exactly the tail from `k`.
proof fn lemma_dot_suffix_len_at(s: Seq<char>, k: int)
    requires
        0 <= k <= s.len(),
        forall|j: int| k <= j < s.len() ==> s[j] == '.',
        k > 0 ==> s[k - 1] != '.',
    ensures
        dot_suffix_len(s) == s.len() - k,
    decreases s.len(),
{
    if s.len() == 0 {
    } else if k == s.len() {
    } else {
        assert(s[s.len() - 1] == '.');
        lemma_dot_suffix_len_at(s.drop_last(), k);
    }
}

/// The character just before the trailing dot run is never a dot.
proof fn lemma_char_before_dots(s: Seq<char>)
    requires
        dot_suffix_len(s) < s.len(),
    ensures
        s[s.len() - dot_suffix_len(s) - 1] != '.',
    decreases s.len(),
{
    if s[s.len() - 1] != '.' {
    } else {
        lemma_char_before_dots(s.drop_last());
    }
}

/// Splits `message` into its stable text prefix and its trailing run of
/// literal dots. The two parts concatenate back to the input; the dots
/// part holds only dots; the text part never ends in a dot.
pub fn trim_trailing_dots(message: &str) -> (r: (String, String))
    ensures
        r.0@ == spec_text_of(message@),
        r.1@ == spec_dots_of(message@),
        r.0@ + r.1@ == message@,
        all_dots(r.1@),
        r.0@.len() > 0 ==> r.0@[r.0@.len() - 1] != '.',
{
    let n = message.unicode_len();
    let mut k: usize = n;
    while k > 0 && message.get_char(k - 1) == '.'
        invariant
            k <= n,
            n == message@.len(),
            forall|j: int| k <= j < n ==> message@[j] == '.',
        decreases k,
    {
        k = k - 1;
    }
    proof {
        lemma_dot_suffix_len_at(message@, k as int);
    }
    let text = message.substring_char(0, k).to_owned();
    let dots = message.substring_char(k, n).to_owned();
    proof {
        assert(text@ + dots@ =~= message@);
        if text@.len() > 0 {
            lemma_char_before_dots(message@);
        }
    }
    (text, dots)
}

/// Trailing-dot extraction is idempotent on the extracted text: the text
/// part has no trailing dots left, so extracting from it again returns the
/// same text and an empty dot run.
pub proof fn lemma_trim_idempotent(s: Seq<char>)
    ensures
        spec_text_of(spec_text_of(s)) == spec_text_of(s),
        spec_dots_of(spec_text_of(s)) == Seq::<char>::empty(),
{
    lemma_dot_suffix_len_le(s);
    let t = spec_text_of(s);
    if t.len() > 0 {
        lemma_char_before_dots(s);
        assert(t[t.len() - 1] != '.');
    }
    assert(dot_suffix_len(t) == 0);
    assert(spec_text_of(t) =~= t);
    assert(spec_dots_of(t) =~= Seq::<char>::empty());
}

// ---------------------------------------------------------------------------
// Tick arithmetic
// ---------------------------------------------------------------------------
/// The frame index shown after `current` in a cycle of `len` frames:
/// one step forward, or one step backward when `reverse` is set.
pub open spec fn spec_next_index(current: int, len: int, reverse: bool) -> int {
    if reverse {
        (current + len - 1) % len
    } else {
        (current + 1) % len
    }
}

/// Advances the frame index one tick.
pub fn next_frame_index(current: usize, frames_len: usize, reverse: bool) -> (r: usize)
    requires
        frames_len > 0,
        current < frames_len,
    ensures
        r == spec_next_index(current as int, frames_len as int, reverse),
        r < frames_len,
{
    let ghost len = frames_len as int;
    if reverse {
        if current == 0 {
            proof {
                lemma_small_mod((frames_len - 1) as nat, frames_len as nat);
            }
            frames_len - 1
        } else {
            proof {
                lemma_mod_add_multiples_vanish(current as int - 1, len);
                lemma_small_mod((current - 1) as nat, frames_len as nat);
            }
            current - 1
        }
    } else {
        if current + 1 == frames_len {
            proof {
                lemma_mod_self_0(len);
            }
            0
        } else {
            proof {
                lemma_small_mod((current + 1) as nat, frames_len as nat);
            }
            current + 1
        }
    }
}

/// The period of the dot-cycle counter: four full frame cycles (capped at
/// the machine's word size).
pub open spec fn spec_dot_period(len: int) -> int {
    if len <= usize::MAX as int / 4 {
        4 * len
    } else {
        usize::MAX as int
    }
}

/// The dot counter that follows `d` for a frame set of `len` frames.
pub open spec fn spec_next_dot(d: int, len: int) -> int {
    (d + 1) % spec_dot_period(len)
}

/// Advances the dot-cycle counter one tick.
pub fn next_dot_count(dot_count: usize, frames_len: usize) -> (r: usize)
    requires
        frames_len > 0,
    ensures
        r == spec_next_dot(dot_count as int, frames_len as int),
        r < spec_dot_period(frames_len as int),
{
    let period: usize = if frames_len <= usize::MAX / 4 {
        4 * frames_len
    } else {
        usize::MAX
    };
    let dm = dot_count % period;
    proof {
        lemma_small_mod(1nat, period as nat);
        lemma_add_mod_noop(dot_count as int, 1, period as int);
    }
    (dm + 1) % period
}

/// How many frame indices are shown `n` forward ticks after `start`.
pub open spec fn spec_index_after(start: int, len: int, reverse: bool, n: nat) -> int
    decreases n,
{
    if n == 0 {
        start
    } else {
        spec_next_index(spec_index_after(start, len, reverse, (n - 1) as nat), len, reverse)
    }
}

proof fn lemma_forward_index_after(start: int, len: int, n: nat)
    requires
        len > 0,
        0 <= start < len,
    ensures
        spec_index_after(start, len, false, n) == (start + n) % len,
    decreases n,
{
    if n == 0 {
        lemma_small_mod(start as nat, len as nat);
    } else {
        lemma_forward_index_after(start, len, (n - 1) as nat);
        let prev = (start + n - 1) % len;
        lemma_add_mod_noop(start + n - 1, 1, len);
        lemma_add_mod_noop(prev, 1, len);
        lemma_small_mod(prev as nat, len as nat);
    }
}

/// Frame index progression: starting from index 0, `len` forward ticks
/// come back to index 0, having cycled once through the whole frame set.
pub proof fn lemma_frame_cycle(len: int)
    requires
        len > 0,
    ensures
        spec_index_after(0, len, false, len as nat) == 0,
{
    lemma_forward_index_after(0, len, len as nat);
    lemma_mod_self_0(len);
}

// ---------------------------------------------------------------------------
// Tick timing
// ---------------------------------------------------------------------------
/// The microseconds between ticks at `fps` frames per second; a zero rate
/// effectively freezes the animation.
pub open spec fn spec_fps_interval_us(fps: u32) -> int {
    if fps == 0 {
        u64::MAX as int
    } else {
        1_000_000 as int / fps as int
    }
}

/// The microseconds between ticks at `rpm` full cycles of a `len`-frame
/// set per minute; a zero rate effectively freezes the animation.
pub open spec fn spec_speed_interval_us(rpm: u32, len: int) -> int
    recommends
        len > 0,
{
    if rpm == 0 {
        u64::MAX as int
    } else {
        (60_000_000 as int / rpm as int) / len
    }
}

/// The sleep between ticks, in microseconds: an explicitly configured
/// interval takes precedence over the frame set's intrinsic duration
/// (which is in milliseconds).
pub open spec fn spec_active_interval_us(interval_us: Option<u64>, frame_duration: u64) -> int {
    match interval_us {
        Some(us) => us as int,
        None => if frame_duration as int * 1000 <= u64::MAX as int {
            frame_duration as int * 1000
        } else {
            u64::MAX as int
        },
    }
}

// ---------------------------------------------------------------------------
// The render state
// ---------------------------------------------------------------------------
/// An abstract snapshot of the render-relevant fields of the state.
pub struct StateView {
    pub text: Seq<char>,
    pub dots: Seq<char>,
    pub style: SpinnerStyle,
    pub frames: Seq<Seq<char>>,
    pub frame_duration: u64,
    pub alignment: Alignment,
    pub style_color: Option<Color>,
    pub text_color: Option<Color>,
    pub dot_color: Option<Color>,
    pub interval_us: Option<u64>,
    pub output: SpinnerStream,
}

/// The mutable snapshot consumed by the render loop on every tick: the
/// message text and its animated dot run, the active frame set and timing,
/// colors, alignment and output target, together with the reconfiguration
/// channel and the shared direction flag.
pub struct SpinnerState {
    channel: Channel<SpinnerMessage>,
    output: SpinnerStream,
    dots: String,
    text: String,
    spinner_style: SpinnerStyle,
    frames: Vec<String>,
    frame_duration: u64,
    reverse: Arc<AtomicBool>,
    alignment: Alignment,
    style_color: Option<Color>,
    text_color: Option<Color>,
    dot_color: Option<Color>,
    interval_us: Option<u64>,
}

impl View for SpinnerState {
    type V = StateView;

    closed spec fn view(&self) -> StateView {
        StateView {
            text: self.text@,
            dots: self.dots@,
            style: self.spinner_style,
            frames: self.frames.deep_view(),
            frame_duration: self.frame_duration,
            alignment: self.alignment,
            style_color: self.style_color,
            text_color: self.text_color,
            dot_color: self.dot_color,
            interval_us: self.interval_us,
            output: self.output,
        }
    }
}

/// How applying one reconfiguration message transforms the render state
/// and the loop's derived counters (the current frame index and the dot
/// counter): a new text replaces the text and dot run and restarts the
/// dot cycle; a new style or frame list restarts the frame cycle; a rate
/// sets the explicit interval override; the remaining cases replace only
/// their own field. An empty frame list is a configuration error and is
/// ignored.
pub open spec fn update_applied(
    pre: StateView,
    post: StateView,
    msg: UpdateMessage,
    idx0: int,
    idx1: int,
    dot0: int,
    dot1: int,
) -> bool {
    match msg {
        UpdateMessage::Message(m) => {
            &&& post == (StateView { text: spec_text_of(m@), dots: spec_dots_of(m@), ..pre })
            &&& idx1 == idx0
            &&& dot1 == 0
        },
        UpdateMessage::Style(st) => {
            &&& exists|d: SpinnerData|
                {
                    &&& #[trigger] call_ensures(get_spinner_data, (&st,), d)
                    &&& post.frames == d.frames.deep_view()
                    &&& post.frame_duration == d.frame_duration
                }
            &&& post.frames.len() > 0
            &&& post.frame_duration > 0
            &&& post == (StateView {
                style: st,
                frames: post.frames,
                frame_duration: post.frame_duration,
                ..pre
            })
            &&& idx1 == 0
            &&& dot1 == dot0
        },
        UpdateMessage::Alignment(a) => {
            &&& post == (StateView { alignment: a, ..pre })
            &&& idx1 == idx0
            &&& dot1 == dot0
        },
        UpdateMessage::Colors(c1, c2, c3) => {
            &&& post == (StateView { style_color: c1, text_color: c2, dot_color: c3, ..pre })
            &&& idx1 == idx0
            &&& dot1 == dot0
        },
        UpdateMessage::FramesPerSecond(fps) => {
            &&& post == (StateView {
                interval_us: Some(spec_fps_interval_us(fps) as u64),
                ..pre
            })
            &&& idx1 == idx0
            &&& dot1 == dot0
        },
        UpdateMessage::Speed(rpm) => {
            &&& post == (StateView {
                interval_us: Some(spec_speed_interval_us(rpm, pre.frames.len() as int) as u64),
                ..pre
            })
            &&& idx1 == idx0
            &&& dot1 == dot0
        },
        UpdateMessage::Frames(fs) => {
            if fs@.len() > 0 {
                &&& post == (StateView { frames: fs.deep_view(), ..pre })
                &&& idx1 == 0
                &&& dot1 == 0
            } else {
                &&& post == pre
                &&& idx1 == idx0
                &&& dot1 == dot0
            }
        },
        UpdateMessage::Stream(s) => {
            &&& post == (StateView { output: s, ..pre })
            &&& idx1 == idx0
            &&& dot1 == dot0
        },
    }
}

impl SpinnerState {
    /// The state is fit to render: at least one frame, a positive default
    /// frame duration, and the dot store holds only dots.
    pub open spec fn wf(self) -> bool {
        &&& self@.frames.len() > 0
        &&& self@.frame_duration > 0
        &&& all_dots(self@.dots)
    }

    /// Merges one reconfiguration message into the state between ticks,
    /// resetting the derived counters as the message demands.
    pub fn apply_update(
        &mut self,
        message: UpdateMessage,
        current_index: &mut usize,
        dot_count: &mut usize,
    )
        requires
            old(self).wf(),
        ensures
            final(self).wf(),
            update_applied(
                old(self)@,
                final(self)@,
                message,
                *old(current_index) as int,
                *final(current_index) as int,
                *old(dot_count) as int,
                *final(dot_count) as int,
            ),
            *final(current_index) <= *old(current_index),
            final(self)@.frames.len() > 0,
    {
        match message {
            UpdateMessage::Message(m) => {
                let (text, dots) = trim_trailing_dots(m.as_str());
                self.text = text;
                self.dots = dots;
                *dot_count = 0;
            },
            UpdateMessage::Style(st) => {
                let data = get_spinner_data(&st);
                let ghost entry = data;
                self.spinner_style = st;
                self.frames = data.frames;
                self.frame_duration = data.frame_duration;
                *current_index = 0;
                proof {
                    assert(call_ensures(get_spinner_data, (&st,), entry));
                    assert(self.frames.deep_view().len() == self.frames@.len());
                }
            },
            UpdateMessage::Alignment(a) => {
                self.alignment = a;
            },
            UpdateMessage::Colors(c1, c2, c3) => {
                self.style_color = c1;
                self.text_color = c2;
                self.dot_color = c3;
            },
            UpdateMessage::FramesPerSecond(fps) => {
                let us: u64 = if fps == 0 {
                    u64::MAX
                } else {
                    1_000_000u64 / (fps as u64)
                };
                self.interval_us = Some(us);
            },
            UpdateMessage::Speed(rpm) => {
                let us: u64 = if rpm == 0 {
                    u64::MAX
                } else {
                    (60_000_000u64 / (rpm as u64)) / (self.frames.len() as u64)
                };
                self.interval_us = Some(us);
                proof {
                    assert(self.frames.deep_view().len() == self.frames@.len());
                }
            },
            UpdateMessage::Frames(fs) => {
                if fs.len() > 0 {
                    self.frames = fs;
                    *current_index = 0;
                    *dot_count = 0;
                    proof {
                        assert(self.frames.deep_view().len() == self.frames@.len());
                    }
                }
            },
            UpdateMessage::Stream(s) => {
                self.output = s;
            },
        }
    }
}

// ---------------------------------------------------------------------------
// Rendering
// ---------------------------------------------------------------------------
/// The display width, in terminal columns, that the unicode-width tables
/// assign to a string: a pure function of its characters.
pub uninterp spec fn display_width(s: Seq<char>) -> usize;

/// Relies on unicode_width's UnicodeWidthStr::width: the string's display
/// width in terminal columns, a function of the characters alone.
#[verifier::external_body]
fn str_width(s: &str) -> (r: usize)
    ensures
        r == display_width(s@),
{
    unicode_width::UnicodeWidthStr::width(s)
}

/// Relies on term_size::dimensions: the terminal's current (columns,
/// rows), if the process has a terminal to measure; a measured size is
/// never zero in either direction (the crate returns none for zero
/// sizes).
pub assume_specification[ term_size::dimensions ]() -> (r: Option<(usize, usize)>)
    ensures
        r matches Some(wh) ==> wh.0 > 0 && wh.1 > 0,
;

/// The measured terminal size, or 80 by 24 when there is none.
fn size_or_default(measured: Option<(usize, usize)>) -> (r: (usize, usize))
    ensures
        match measured {
            Some(wh) => r == wh,
            None => r == (80usize, 24usize),
        },
{
    match measured {
        Some(wh) => wh,
        None => (80, 24),
    }
}

/// The terminal's (width, height), measured fresh, falling back to 80 by
/// 24 when the process has no terminal (see `size_or_default`); either
/// way both are positive.
pub fn get_terminal_size() -> (r: (usize, usize))
    ensures
        r.0 > 0 && r.1 > 0,
{
    size_or_default(term_size::dimensions())
}

/// Relies on crossbeam::channel::after: blocks the current thread on a
/// timer channel whose one message arrives `us` microseconds from now.
#[verifier::external_body]
fn sleep_us(us: u64) {
    let timer = crossbeam::channel::after(core::time::Duration::from_micros(us));
    let _ = timer.recv();
}

/// Relies on std::sync::Arc::clone: the clone is the same shared flag.
#[verifier::external_body]
pub(crate) fn arc_flag_clone(a: &Arc<AtomicBool>) -> (r: Arc<AtomicBool>)
    ensures
        r == *a,
{
    a.clone()
}

/// The sum of `a` and `b`, capped at the machine's word size.
fn add_capped(a: usize, b: usize) -> (r: usize)
    ensures
        r as int == if a + b <= usize::MAX as int {
            a + b
        } else {
            usize::MAX as int
        },
{
    if a <= usize::MAX - b {
        a + b
    } else {
        usize::MAX
    }
}

/// The exact character sequence of one rendered line: the carriage return
/// and clear-line control, the padding, the (possibly colored) frame, one
/// space, then the (possibly colored) text and dot run.
pub open spec fn line_view(
    padding: Seq<char>,
    frame: Seq<char>,
    text: Seq<char>,
    dots: Seq<char>,
) -> Seq<char> {
    "\r\x1b[K"@ + padding + frame + " "@ + text + dots
}

/// Builds one rendered line from its already-colored pieces.
pub fn compose_line(padding: &str, frame: &str, text: &str, dots: &str) -> (r: String)
    ensures
        r@ == line_view(padding@, frame@, text@, dots@),
{
    let mut line = String::from_str("\r\x1b[K");
    line.append(padding);
    line.append(frame);
    line.append(" ");
    line.append(text);
    line.append(dots);
    line
}

/// The columns available for content in a terminal `w` columns wide: two
/// are held back, as the cursor needs room at the end of the line.
pub open spec fn spec_avail(w: int) -> int {
    if w >= 2 {
        w - 2
    } else {
        0
    }
}

/// The sum of `a` and `b`, capped at the machine's word size.
pub open spec fn spec_cap_add(a: int, b: int) -> int {
    if a + b <= usize::MAX as int {
        a + b
    } else {
        usize::MAX as int
    }
}

/// The combined display width of the frame, text and dot pieces.
pub open spec fn spec_content_width(f: Seq<char>, t: Seq<char>, d: Seq<char>) -> int {
    spec_cap_add(spec_cap_add(display_width(f) as int, display_width(t) as int), display_width(d) as int)
}

/// The run of spaces before the content of a rendered line.
pub open spec fn spec_pad_seq(align: Alignment, avail: int, content: int) -> Seq<char> {
    Seq::new(spec_line_padding(align, avail, content) as nat, |i: int| ' ')
}

/// The number of padding spaces before the content: the alignment's
/// padding when the content fits into the available columns, none when it
/// does not.
pub open spec fn spec_line_padding(align: Alignment, avail: int, content: int) -> int {
    if align == Alignment::Left {
        0
    } else if content <= avail {
        crate::spinner::alignment::spec_padding(align, avail, content)
    } else {
        0
    }
}

impl SpinnerState {
    /// The sleep before the next tick, in microseconds: the explicit
    /// override when one is set, else the frame set's intrinsic duration.
    pub fn active_interval_us(&self) -> (r: u64)
        ensures
            r as int == spec_active_interval_us(self@.interval_us, self@.frame_duration),
    {
        match self.interval_us {
            Some(us) => us,
            None => {
                if self.frame_duration <= u64::MAX / 1000 {
                    self.frame_duration * 1000
                } else {
                    u64::MAX
                }
            },
        }
    }

    /// Builds the line rendered for one tick in a terminal
    /// `terminal_width` columns wide: the padding resolved from the
    /// alignment and the combined display width (content wider than the
    /// available columns gets none), then the colored pieces. The line is
    /// always the clear control, that padding, and the three pieces in
    /// order; each piece is the given string itself wherever no color is
    /// configured for it, and its colored form otherwise.
    pub fn rendered_line(&self, terminal_width: usize, frame: &str, text: &str, dots: &str) -> (r:
        String)
        ensures
            exists|cf: Seq<char>, ct: Seq<char>, cd: Seq<char>|
                {
                    &&& r@ == #[trigger] line_view(
                        spec_pad_seq(
                            self@.alignment,
                            spec_avail(terminal_width as int),
                            spec_content_width(frame@, text@, dots@),
                        ),
                        cf,
                        ct,
                        cd,
                    )
                    &&& (self@.style_color is None ==> cf == frame@)
                    &&& (self@.text_color is None ==> ct == text@)
                    &&& (self@.dot_color is None ==> cd == dots@)
                },
            (self@.style_color is None && self@.text_color is None && self@.dot_color is None)
                ==> r@ == line_view(
                spec_pad_seq(
                    self@.alignment,
                    spec_avail(terminal_width as int),
                    spec_content_width(frame@, text@, dots@),
                ),
                frame@,
                text@,
                dots@,
            ),
    {
        let content_width = add_capped(add_capped(str_width(frame), str_width(text)), str_width(dots));
        let avail = if terminal_width >= 2 {
            terminal_width - 2
        } else {
            0
        };
        let padding = if self.alignment == Alignment::Left || content_width <= avail {
            self.alignment.get_horizontal_padding(avail, content_width)
        } else {
            String::new()
        };

        let colored_frame = match self.style_color {
            Some(color) => colorize(frame, color),
            None => frame.to_owned(),
        };
        let colored_text = match self.text_color {
            Some(color) => colorize(text, color),
            None => text.to_owned(),
        };
        let colored_dots = match self.dot_color {
            Some(color) => colorize(dots, color),
            None => dots.to_owned(),
        };

        let line = compose_line(
            padding.as_str(),
            colored_frame.as_str(),
            colored_text.as_str(),
            colored_dots.as_str(),
        );
        proof {
            let pad_seq = spec_pad_seq(
                self@.alignment,
                spec_avail(terminal_width as int),
                spec_content_width(frame@, text@, dots@),
            );
            assert(padding@ =~= pad_seq);
            assert(line@ == line_view(pad_seq, colored_frame@, colored_text@, colored_dots@));
        }
        line
    }

    /// Renders one line to the output stream: builds it for the fresh
    /// terminal width and writes it as one write, then flushes.
    pub fn print(&self, frame: &str, text: &str, dots: &str) -> (r: SpinnerResult<()>) {
        let (width, _height) = get_terminal_size();
        let line = self.rendered_line(width, frame, text, dots);
        match self.output.write_str(line.as_str()) {
            Ok(()) => self.output.flush(),
            Err(e) => Err(e),
        }
    }
}

impl SpinnerState {
    /// A fresh render state for `message`: the text and its trailing dot
    /// run split apart, the default style's frames, left alignment, a
    /// magenta frame and dot run, uncolored text, no explicit interval,
    /// standard output.
    pub fn new(message: &str) -> (r: Self)
        ensures
            r.wf(),
            r@.text == spec_text_of(message@),
            r@.dots == spec_dots_of(message@),
            r@.style == SpinnerStyle::CircleHalves,
            r@.frames.len() == 4,
            r@.frames[0] == "\u{25d0}"@,
            r@.frames[1] == "\u{25d3}"@,
            r@.frames[2] == "\u{25d1}"@,
            r@.frames[3] == "\u{25d2}"@,
            r@.frame_duration == 50,
            r@.alignment == Alignment::Left,
            r@.style_color is Some,
            r@.text_color is None,
            r@.dot_color is Some,
            r@.interval_us is None,
            r@.output == SpinnerStream::Stdout,
    {
        let channel = Channel::new();
        let output = SpinnerStream::default();
        let (text, dots) = trim_trailing_dots(message);
        let spinner_style = SpinnerStyle::default();
        let data = get_spinner_data(&spinner_style);
        let frames = data.frames;
        let frame_duration = data.frame_duration;
        let reverse = Arc::new(AtomicBool::new(false));
        let alignment = Alignment::default();
        let style_color = Some(magenta());
        let text_color: Option<Color> = None;
        let dot_color = Some(magenta());
        let interval_us: Option<u64> = None;
        let r = SpinnerState {
            channel,
            output,
            dots,
            text,
            spinner_style,
            frames,
            frame_duration,
            reverse,
            alignment,
            style_color,
            text_color,
            dot_color,
            interval_us,
        };
        proof {
            assert(r.frames.deep_view().len() == r.frames@.len());
        }
        r
    }

    /// Enqueues one reconfiguration message for the render loop; fails
    /// only when the channel is closed.
    pub fn update(&mut self, message: UpdateMessage) -> (r: SpinnerResult<()>)
        ensures
            *final(self) == *old(self),
            r matches Err(e) ==> e@ == "Failed to send message through channel"@,
    {
        match self.channel.try_send(SpinnerMessage::Update(Ok(message))) {
            Ok(()) => Ok(()),
            Err(_) => Err(SpinnerError::new("Failed to send message through channel")),
        }
    }

    /// Enqueues the stop message for the render loop; fails only when the
    /// channel is closed.
    pub fn stop(&self) -> (r: SpinnerResult<()>)
        ensures
            r matches Err(e) ==> e@ == "Failed to send stop message through channel"@,
    {
        match self.channel.try_send(SpinnerMessage::Stop) {
            Ok(()) => Ok(()),
            Err(_) => Err(SpinnerError::new("Failed to send stop message through channel")),
        }
    }

    /// Stores the shared direction flag, read by the render loop once per
    /// tick. The flag lives outside the state the contracts describe, so
    /// the state itself is unchanged.
    pub fn set_reverse(&mut self, reverse: bool)
        ensures
            *final(self) == *old(self),
    {
        self.reverse.store(reverse, core::sync::atomic::Ordering::SeqCst);
    }

    /// The current value of the shared direction flag.
    pub fn reverse(&self) -> bool {
        self.reverse.load(core::sync::atomic::Ordering::SeqCst)
    }

    /// The stable text prefix of the message.
    pub fn text(&self) -> (r: &String)
        ensures
            r@ == self@.text,
    {
        &self.text
    }

    /// The stored trailing dot run of the message.
    pub fn dots(&self) -> (r: &String)
        ensures
            r@ == self@.dots,
    {
        &self.dots
    }

    /// The active frame set.
    pub fn frames(&self) -> (r: &Vec<String>)
        ensures
            r.deep_view() == self@.frames,
    {
        &self.frames
    }

    /// The frame set's intrinsic frame duration, in milliseconds.
    pub fn frame_duration(&self) -> (r: u64)
        ensures
            r == self@.frame_duration,
    {
        self.frame_duration
    }

    /// The explicit interval override, in microseconds, if one is set.
    pub fn interval_us(&self) -> (r: Option<u64>)
        ensures
            r == self@.interval_us,
    {
        self.interval_us
    }

    /// The active animation style.
    pub fn style(&self) -> (r: SpinnerStyle)
        ensures
            r == self@.style,
    {
        self.spinner_style
    }

    /// The selected output stream.
    pub fn output_stream(&self) -> (r: SpinnerStream)
        ensures
            r == self@.output,
    {
        self.output
    }

    /// The reconfiguration channel shared between the handle and the
    /// render loop.
    pub fn channel(&self) -> &Channel<SpinnerMessage> {
        &self.channel
    }

    /// The render loop. It runs until the shared running flag is cleared,
    /// a stop message arrives, or writing fails. Both derived counters
    /// start at zero, so the first tick shows the first frame with no
    /// dots. Each tick renders the current frame with the visible part of
    /// the dot run, advances the frame index (backward when the direction
    /// flag is set) and the dot counter, sleeps for the active interval,
    /// and drains at most one pending control message, reacting to it as
    /// `on_message` decides.
    pub fn spin(&mut self, running: Arc<AtomicBool>, paused: PauseGate) -> (r: SpinnerResult<()>)
        requires
            old(self).wf(),
        ensures
            final(self).wf(),
    {
        match self.output.write_str("\x1b[?25l") {
            Ok(()) => {},
            Err(e) => {
                return Err(e);
            },
        }

        let mut dot_count: usize = 0;
        let mut current_index: usize = 0;
        // The loop leaves through the cleared flag or the stop message;
        // the tick counter only gives it a formal bound, far beyond any
        // realizable run.
        let mut ticks_left: u64 = u64::MAX;

        while ticks_left > 0
            invariant
                self.wf(),
                current_index < self.frames@.len(),
            decreases ticks_left,
        {
            ticks_left = ticks_left - 1;
            if !running.load(core::sync::atomic::Ordering::SeqCst) {
                break;
            }

            paused.wait_while_paused();

            let frames_len = self.frames.len();
            let frame = self.frames[current_index].as_str();
            let dots_len = self.dots.unicode_len();
            let visible = if dot_count < dots_len {
                dot_count
            } else {
                dots_len
            };
            let shown_dots = self.dots.as_str().substring_char(0, visible);

            match self.print(frame, self.text.as_str(), shown_dots) {
                Ok(()) => {},
                Err(e) => {
                    return Err(e);
                },
            }

            let reverse = self.reverse.load(core::sync::atomic::Ordering::SeqCst);
            current_index = next_frame_index(current_index, frames_len, reverse);
            dot_count = next_dot_count(dot_count, frames_len);

            sleep_us(self.active_interval_us());

            match self.channel.try_receive() {
                Ok(spin_message) => match on_message(spin_message) {
                    MessageAction::Apply(m) => {
                        self.apply_update(m, &mut current_index, &mut dot_count);
                    },
                    MessageAction::ReEnqueueStopAndExit => {
                        match self.channel.try_send(SpinnerMessage::Stop) {
                            Ok(()) => {},
                            Err(_) => {
                                return Err(
                                    SpinnerError::new("Failed to send message through channel"),
                                );
                            },
                        }
                        return Err(SpinnerError::new("Spinner stopped"));
                    },
                    MessageAction::FailCorrupt => {
                        return Err(SpinnerError::new("Failed to receive update message"));
                    },
                },
                Err(_) => {},
            }
        }
        Ok(())
    }
}

/// What the render loop does with one drained control message.
pub enum MessageAction {
    /// Merge the carried reconfiguration into the render state.
    Apply(UpdateMessage),
    /// Put the stop message back for any other consumer, then leave the
    /// loop with the "Spinner stopped" signal.
    ReEnqueueStopAndExit,
    /// Leave the loop with the "Failed to receive update message" signal:
    /// the update was a delivery-corruption marker.
    FailCorrupt,
}

/// The loop's decision for one drained message: stop is acknowledged and
/// re-enqueued, a well-formed update is applied, a corrupt one is fatal.
pub fn on_message(message: SpinnerMessage) -> (d: MessageAction)
    ensures
        message is Stop ==> d is ReEnqueueStopAndExit,
        message matches SpinnerMessage::Update(Ok(m)) ==> d == MessageAction::Apply(m),
        message matches SpinnerMessage::Update(Err(_)) ==> d is FailCorrupt,
{
    match message {
        SpinnerMessage::Stop => MessageAction::ReEnqueueStopAndExit,
        SpinnerMessage::Update(Ok(m)) => MessageAction::Apply(m),
        SpinnerMessage::Update(Err(_)) => MessageAction::FailCorrupt,
    }
}

impl Clone for SpinnerState {
    /// The clone renders exactly the same content; the channel and the
    /// shared direction flag are shared with the original.
    fn clone(&self) -> (r: Self)
        ensures
            r@ == self@,
    {
        let frames = self.frames.clone();
        proof {
            assert forall|i: int| 0 <= i < frames@.len() implies #[trigger] frames@[i]
                == self.frames@[i] by {
                assert(vstd::pervasive::cloned::<String>(self.frames[i], frames[i]));
            }
            assert(frames.deep_view() =~= self.frames.deep_view());
        }
        SpinnerState {
            channel: self.channel.clone(),
            output: self.output,
            dots: self.dots.clone(),
            text: self.text.clone(),
            spinner_style: self.spinner_style,
            frames,
            frame_duration: self.frame_duration,
            reverse: arc_flag_clone(&self.reverse),
            alignment: self.alignment,
            style_color: self.style_color,
            text_color: self.text_color,
            dot_color: self.dot_color,
            interval_us: self.interval_us,
        }
    }
}

} // verus!
