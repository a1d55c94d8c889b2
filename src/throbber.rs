//! The indeterminate throbber: its configuration, its shared state, the
//! operations callers perform on it, the ticks of its animation driver and the
//! steps of its render loop.
use vstd::prelude::*;
use crate::palette::{color_at, cycle_next, cycle_steps, lemma_cycle_steps, next_index, palette_color};
use crossterm::style::Color;

verus! {

/// How a throbber is painted: its glyphs, the palette it cycles through and
/// the delay between two frames in milliseconds.
#[derive(Clone)]
pub struct ThrobberConfig {
    pub frames: Vec<&'static str>,
    pub colors: Vec<Color>,
    pub frame_delay: u64,
}

impl ThrobberConfig {
    /// A configuration that the animation driver can cycle through: it has
    /// glyphs and colours.
    pub open spec fn wf(&self) -> bool {
        self.frames@.len() > 0 && self.colors@.len() > 0
    }
}

impl Default for ThrobberConfig {
    /// The glyphs `| / - \`, eight colours and a 150 ms frame delay.
    fn default() -> (r: Self)
        ensures
            r.frames@.len() == 4,
            r.frames@[0]@ == "|"@,
            r.frames@[1]@ == "/"@,
            r.frames@[2]@ == "-"@,
            r.frames@[3]@ == "\\"@,
            r.colors@ == seq![
                Color::Green, Color::Yellow, Color::Magenta, Color::Cyan,
                Color::Blue, Color::Red, Color::White, Color::DarkGrey,
            ],
            r.frame_delay == 150,
            r.wf(),
    {
        ThrobberConfig {
            frames: vec!["|", "/", "-", "\\"],
            colors: vec![
                Color::Green, Color::Yellow, Color::Magenta, Color::Cyan,
                Color::Blue, Color::Red, Color::White, Color::DarkGrey,
            ],
            frame_delay: 150,
        }
    }
}

/// The state that a throbber's callers, render loop and animation driver
/// share.
pub struct ThrobberState {
    pub frame_index: usize,
    pub color_index: usize,
    pub running: bool,
    pub message: String,
}

/// The mathematical value of a throbber's state.
pub struct ThrobberView {
    pub frame_index: nat,
    pub color_index: nat,
    pub running: bool,
    pub message: Seq<char>,
}

impl View for ThrobberState {
    type V = ThrobberView;

    open spec fn view(&self) -> ThrobberView {
        ThrobberView {
            frame_index: self.frame_index as nat,
            color_index: self.color_index as nat,
            running: self.running,
            message: self.message@,
        }
    }
}

/// The indices stand inside the glyph table and the palette.
pub open spec fn throbber_wf(s: ThrobberView, frames: nat, colors: nat) -> bool {
    s.frame_index < frames && s.color_index < colors
}

/// What `start()` does: a stopped throbber runs again from its first glyph
/// and colour; a running one is left as it is.
pub open spec fn start_spec(s: ThrobberView) -> ThrobberView {
    if s.running {
        s
    } else {
        ThrobberView { running: true, frame_index: 0, color_index: 0, ..s }
    }
}

/// What `stop()` does: the throbber no longer runs.
pub open spec fn stop_spec(s: ThrobberView) -> ThrobberView {
    ThrobberView { running: false, ..s }
}

/// What one tick of the animation driver does: a running throbber moves to
/// the next glyph of `frames` and the next colour of `colors`; a stopped one
/// is left as it is.
pub open spec fn tick_spec(s: ThrobberView, frames: nat, colors: nat) -> ThrobberView {
    if s.running {
        ThrobberView {
            frame_index: cycle_next(s.frame_index, frames),
            color_index: cycle_next(s.color_index, colors),
            ..s
        }
    } else {
        s
    }
}

/// The state after `n` ticks of the animation driver.
pub open spec fn ticks_spec(s: ThrobberView, n: nat, frames: nat, colors: nat) -> ThrobberView
    decreases n,
{
    if n == 0 {
        s
    } else {
        tick_spec(ticks_spec(s, (n - 1) as nat, frames, colors), frames, colors)
    }
}

/// The text of a painted throbber: the glyph, a blank, then the message.
pub open spec fn throbber_text(glyph: Seq<char>, message: Seq<char>) -> Seq<char> {
    glyph + seq![' '] + message
}

/// What the render loop does when it wakes: clear the line and exit, or paint
/// a glyph and message in a colour.
pub enum ThrobberPaint {
    Clear,
    Frame { color: Color, text: String },
}

impl ThrobberState {
    /// A stopped throbber at its first glyph and colour, showing `msg`.
    pub fn new(msg: String) -> (r: Self)
        ensures
            r@ == (ThrobberView { frame_index: 0, color_index: 0, running: false, message: msg@ }),
    {
        ThrobberState { frame_index: 0, color_index: 0, running: false, message: msg }
    }

    /// Sets the throbber running from its first glyph and colour, unless it
    /// runs already.
    pub fn start(&mut self)
        ensures
            final(self)@ == start_spec(old(self)@),
            old(self).running ==> final(self)@ == old(self)@,
            final(self).running,
    {
        if !self.running {
            self.running = true;
            self.frame_index = 0;
            self.color_index = 0;
        }
    }

    /// Stops the throbber; its render loop and animation driver end when they
    /// next look.
    pub fn stop(&mut self)
        ensures
            final(self)@ == stop_spec(old(self)@),
    {
        self.running = false;
    }

    /// One tick of the animation driver. Returns whether the throbber runs,
    /// in which case the indices moved on and the render loop is to be woken;
    /// otherwise the driver ends.
    pub fn tick(&mut self, config: &ThrobberConfig) -> (r: bool)
        requires
            config.wf(),
        ensures
            r == old(self).running,
            final(self)@ == tick_spec(old(self)@, config.frames@.len(), config.colors@.len()),
            throbber_wf(old(self)@, config.frames@.len(), config.colors@.len()) ==> throbber_wf(
                final(self)@,
                config.frames@.len(),
                config.colors@.len(),
            ),
    {
        if !self.running {
            false
        } else {
            self.frame_index = next_index(self.frame_index, config.frames.len());
            self.color_index = next_index(self.color_index, config.colors.len());
            true
        }
    }

    /// One round of the render loop after it was woken: clear the line if the
    /// throbber stopped, else paint the current glyph and message in the
    /// current colour.
    pub fn on_wake(&self, config: &ThrobberConfig) -> (r: ThrobberPaint)
        requires
            self.frame_index < config.frames@.len(),
        ensures
            !self.running ==> r == ThrobberPaint::Clear,
            self.running ==> match r {
                ThrobberPaint::Frame { color, text } => {
                    &&& color == palette_color(config.colors@, self.color_index as nat)
                    &&& text@ == throbber_text(
                        config.frames@[self.frame_index as int]@,
                        self.message@,
                    )
                },
                ThrobberPaint::Clear => false,
            },
    {
        if !self.running {
            ThrobberPaint::Clear
        } else {
            let mut text = String::from_str(config.frames[self.frame_index]);
            proof {
                reveal_strlit(" ");
            }
            text.append(" ");
            text.append(self.message.as_str());
            ThrobberPaint::Frame { color: color_at(&config.colors, self.color_index), text }
        }
    }
}

/// Ticks of a running throbber move both indices one step round their
/// tables and change nothing else.
proof fn lemma_ticks_steps(s: ThrobberView, n: nat, frames: nat, colors: nat)
    requires
        s.running,
    ensures
        ticks_spec(s, n, frames, colors) == (ThrobberView {
            frame_index: cycle_steps(s.frame_index, n, frames),
            color_index: cycle_steps(s.color_index, n, colors),
            ..s
        }),
    decreases n,
{
    if n > 0 {
        lemma_ticks_steps(s, (n - 1) as nat, frames, colors);
    }
}

/// Under repeated ticks of the animation driver, the glyph and colour
/// indices of a running throbber each cycle modulo the length of their own
/// table: after `n` ticks they stand `n` steps on, wrapped.
pub proof fn lemma_ticks_cycle(s: ThrobberView, n: nat, frames: nat, colors: nat)
    requires
        s.running,
        frames > 0,
        colors > 0,
        throbber_wf(s, frames, colors),
    ensures
        ticks_spec(s, n, frames, colors).frame_index == (s.frame_index + n) % frames,
        ticks_spec(s, n, frames, colors).color_index == (s.color_index + n) % colors,
        ticks_spec(s, n, frames, colors).running,
        throbber_wf(ticks_spec(s, n, frames, colors), frames, colors),
{
    lemma_ticks_steps(s, n, frames, colors);
    lemma_cycle_steps(s.frame_index, n, frames);
    lemma_cycle_steps(s.color_index, n, colors);
}

/// `start()` on a throbber that runs already changes nothing: the indices
/// are not reset.
pub proof fn lemma_start_running_is_noop(s: ThrobberView)
    requires
        s.running,
    ensures
        start_spec(s) == s,
{
}

/// `stop()` followed by `start()` sets the throbber running again from its
/// first glyph and colour, keeping its message.
pub proof fn lemma_restart_resets(s: ThrobberView)
    ensures
        start_spec(stop_spec(s)).frame_index == 0,
        start_spec(stop_spec(s)).color_index == 0,
        start_spec(stop_spec(s)).running,
        start_spec(stop_spec(s)).message == s.message,
{
}

} // verus!
