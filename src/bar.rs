//! The determinate progress bar: its configuration, its shared state, the
//! operations callers perform on it and the steps of its render loop.
use vstd::prelude::*;
use crate::palette::{color_at, cycle_next, cycle_steps, lemma_cycle_steps, next_index, palette_color};
use crate::ratio::{filled_len, filled_spec, percent, percent_spec};
use crate::text::{decimal, push_decimal, push_repeat, repeat};
use crossterm::style::Color;

verus! {

/// How a bar is painted: the palette it cycles through, the redraw pace it
/// was given and its width in cells.
///
/// `color_cycle_delay` is kept for callers that pace redraws themselves; the
/// bar redraws when its progress changes.
#[derive(Clone)]
pub struct BarConfig {
    pub colors: Vec<Color>,
    pub color_cycle_delay: u64,
    pub width: usize,
}

impl BarConfig {
    /// A configuration that a render loop can paint with: its palette is not
    /// empty.
    pub open spec fn wf(&self) -> bool {
        self.colors@.len() > 0
    }
}

impl Default for BarConfig {
    /// Four colours, a 600 ms pace and a width of 40 cells.
    fn default() -> (r: Self)
        ensures
            r.colors@ == seq![Color::Green, Color::Yellow, Color::Magenta, Color::Cyan],
            r.color_cycle_delay == 600,
            r.width == 40,
            r.wf(),
    {
        BarConfig {
            colors: vec![Color::Green, Color::Yellow, Color::Magenta, Color::Cyan],
            color_cycle_delay: 600,
            width: 40,
        }
    }
}

/// The state that a bar's callers and its render loop share.
pub struct BarState {
    pub current: u64,
    pub total: u64,
    pub finished: bool,
    pub message: String,
    pub color_index: usize,
}

/// The mathematical value of a bar's state.
pub struct BarView {
    pub current: nat,
    pub total: nat,
    pub finished: bool,
    pub message: Seq<char>,
    pub color_index: nat,
}

impl View for BarState {
    type V = BarView;

    open spec fn view(&self) -> BarView {
        BarView {
            current: self.current as nat,
            total: self.total as nat,
            finished: self.finished,
            message: self.message@,
            color_index: self.color_index as nat,
        }
    }
}

/// A bar of `total` units with no progress yet.
pub open spec fn fresh_spec(total: nat) -> BarView {
    BarView { current: 0, total, finished: false, message: Seq::empty(), color_index: 0 }
}

/// Progress never passes the total.
pub open spec fn bar_wf(s: BarView) -> bool {
    s.current <= s.total
}

/// What `inc(delta)` does: an unfinished bar moves `delta` units on, stopping
/// at the total, and is finished once it reaches the total; a finished bar
/// stays as it is.
pub open spec fn inc_spec(s: BarView, delta: nat) -> BarView {
    if s.finished {
        s
    } else {
        let c = if s.current + delta >= s.total { s.total } else { s.current + delta };
        BarView { current: c, finished: c == s.total, ..s }
    }
}

/// What `finish_with_message(msg)` does: the bar is complete, finished, and
/// shows `msg`.
pub open spec fn finish_spec(s: BarView, msg: Seq<char>) -> BarView {
    BarView { current: s.total, finished: true, message: msg, ..s }
}

/// The state after `inc` was called with each delta of `ds` in turn.
pub open spec fn incs_spec(s: BarView, ds: Seq<nat>) -> BarView
    decreases ds.len(),
{
    if ds.len() == 0 {
        s
    } else {
        incs_spec(inc_spec(s, ds[0]), ds.drop_first())
    }
}

/// A call that changes a bar's progress.
pub enum BarOp {
    Inc(nat),
    Finish(Seq<char>),
}

/// What one call does.
pub open spec fn op_spec(s: BarView, op: BarOp) -> BarView {
    match op {
        BarOp::Inc(d) => inc_spec(s, d),
        BarOp::Finish(m) => finish_spec(s, m),
    }
}

/// The state after each call of `ops` in turn.
pub open spec fn ops_spec(s: BarView, ops: Seq<BarOp>) -> BarView
    decreases ops.len(),
{
    if ops.len() == 0 {
        s
    } else {
        ops_spec(op_spec(s, ops[0]), ops.drop_first())
    }
}

/// The sum of the deltas of the `inc` calls of `ops`.
pub open spec fn inc_sum(ops: Seq<BarOp>) -> nat
    decreases ops.len(),
{
    if ops.len() == 0 {
        0
    } else {
        let d = match ops[0] {
            BarOp::Inc(d) => d,
            BarOp::Finish(_) => 0,
        };
        d + inc_sum(ops.drop_first())
    }
}

/// Whether `ops` holds an `inc` call.
pub open spec fn has_inc(ops: Seq<BarOp>) -> bool
    decreases ops.len(),
{
    ops.len() > 0 && (ops[0] is Inc || has_inc(ops.drop_first()))
}

/// Whether `ops` holds a `finish_with_message` call.
pub open spec fn has_finish(ops: Seq<BarOp>) -> bool
    decreases ops.len(),
{
    ops.len() > 0 && (ops[0] is Finish || has_finish(ops.drop_first()))
}

/// The text of a painted bar: `[`, the filled cells as `=`, the rest as
/// blanks, `]`, the rounded percentage with `%`, then the message.
pub open spec fn bar_text(s: BarView, width: nat) -> Seq<char> {
    let f = filled_spec(s.current, s.total, width);
    seq!['['] + repeat('=', f) + repeat(' ', (width - f) as nat) + seq![']', ' ']
        + decimal(percent_spec(s.current, s.total)) + seq!['%', ' '] + s.message
}

/// What the render loop does to the state when it wakes: an unfinished bar
/// moves on to the next colour of a palette of `len` colours; a finished one
/// is painted for the last time and left as it is.
pub open spec fn wake_spec(s: BarView, len: nat) -> BarView {
    if s.finished {
        s
    } else {
        BarView { color_index: cycle_next(s.color_index, len), ..s }
    }
}

/// The state after the render loop woke `n` times.
pub open spec fn wakes_spec(s: BarView, n: nat, len: nat) -> BarView
    decreases n,
{
    if n == 0 {
        s
    } else {
        wake_spec(wakes_spec(s, (n - 1) as nat, len), len)
    }
}

/// One line for the terminal: the colour it is painted in and its text.
/// `last` is set on the final paint, after which the render loop ends the
/// line and exits.
pub struct BarPaint {
    pub color: Color,
    pub text: String,
    pub last: bool,
}

impl BarState {
    /// A bar of `total` units with no progress yet.
    pub fn new(total: u64) -> (r: Self)
        ensures
            r@ == fresh_spec(total as nat),
            bar_wf(r@),
    {
        BarState { current: 0, total, finished: false, message: String::new(), color_index: 0 }
    }

    /// Reports `delta` more units of progress. Returns whether the render
    /// loop is to be woken, which is whenever the bar was not yet finished.
    pub fn inc(&mut self, delta: u64) -> (r: bool)
        requires
            bar_wf(old(self)@),
        ensures
            final(self)@ == inc_spec(old(self)@, delta as nat),
            bar_wf(final(self)@),
            r == !old(self).finished,
    {
        if !self.finished {
            if delta >= self.total - self.current {
                self.current = self.total;
            } else {
                self.current = self.current + delta;
            }
            if self.current == self.total {
                self.finished = true;
            }
            true
        } else {
            false
        }
    }

    /// Completes the bar at once and sets the message shown beside it.
    pub fn finish_with_message(&mut self, msg: &str)
        ensures
            final(self)@ == finish_spec(old(self)@, msg@),
            bar_wf(final(self)@),
    {
        self.current = self.total;
        self.finished = true;
        self.message = String::from_str(msg);
    }

    /// The line that paints the bar as it stands.
    pub fn paint(&self, config: &BarConfig) -> (r: BarPaint)
        requires
            bar_wf(self@),
        ensures
            r.color == palette_color(config.colors@, self.color_index as nat),
            r.text@ == bar_text(self@, config.width as nat),
            r.last == self.finished,
    {
        let ghost v = self@;
        let f = filled_len(self.current, self.total, config.width);
        let p = percent(self.current, self.total);
        let mut text = String::new();
        proof {
            reveal_strlit("[");
            reveal_strlit("=");
            reveal_strlit(" ");
            reveal_strlit("] ");
            reveal_strlit("% ");
        }
        text.append("[");
        push_repeat(&mut text, "=", f);
        push_repeat(&mut text, " ", config.width - f);
        text.append("] ");
        push_decimal(&mut text, p);
        text.append("% ");
        text.append(self.message.as_str());
        assert(text@ =~= bar_text(v, config.width as nat));
        BarPaint { color: color_at(&config.colors, self.color_index), text, last: self.finished }
    }

    /// One round of the render loop after it was woken: the line to paint,
    /// and the state moved on to the next colour unless this is the last
    /// paint.
    pub fn on_wake(&mut self, config: &BarConfig) -> (r: BarPaint)
        requires
            bar_wf(old(self)@),
            config.wf(),
        ensures
            r.color == palette_color(config.colors@, old(self).color_index as nat),
            r.text@ == bar_text(old(self)@, config.width as nat),
            r.last == old(self).finished,
            final(self)@ == wake_spec(old(self)@, config.colors@.len()),
            bar_wf(final(self)@),
    {
        let r = self.paint(config);
        if !self.finished {
            self.color_index = next_index(self.color_index, config.colors.len());
        }
        r
    }
}

/// Once a bar is finished, further calls of `inc` change nothing.
pub proof fn lemma_finished_absorbs_incs(s: BarView, ds: Seq<nat>)
    requires
        s.finished,
    ensures
        incs_spec(s, ds) == s,
    decreases ds.len(),
{
    if ds.len() > 0 {
        lemma_finished_absorbs_incs(inc_spec(s, ds[0]), ds.drop_first());
    }
}

/// A finished, complete bar stays finished and complete whatever calls follow.
proof fn lemma_finished_stays(s: BarView, ops: Seq<BarOp>)
    requires
        s.finished,
        s.current == s.total,
    ensures
        ops_spec(s, ops).finished,
        ops_spec(s, ops).current == s.total,
        ops_spec(s, ops).total == s.total,
    decreases ops.len(),
{
    if ops.len() > 0 {
        lemma_finished_stays(op_spec(s, ops[0]), ops.drop_first());
    }
}

/// Calls that hold no `inc` add nothing.
proof fn lemma_no_inc_sum(ops: Seq<BarOp>)
    requires
        !has_inc(ops),
    ensures
        inc_sum(ops) == 0,
    decreases ops.len(),
{
    if ops.len() > 0 {
        lemma_no_inc_sum(ops.drop_first());
    }
}

/// From an unfinished bar, a run of calls leaves the bar finished exactly
/// when one of them is `finish_with_message`, or one is `inc` and the deltas
/// reach what was left; a finished bar stands at its total, an unfinished one
/// has moved by the sum of the deltas.
proof fn lemma_ops_from(s: BarView, ops: Seq<BarOp>)
    requires
        bar_wf(s),
        !s.finished,
    ensures
        ops_spec(s, ops).finished == (has_finish(ops) || (has_inc(ops) && s.current + inc_sum(
            ops,
        ) >= s.total)),
        ops_spec(s, ops).current == if ops_spec(s, ops).finished {
            s.total
        } else {
            s.current + inc_sum(ops)
        },
        ops_spec(s, ops).total == s.total,
    decreases ops.len(),
{
    if ops.len() > 0 {
        let s1 = op_spec(s, ops[0]);
        let rest = ops.drop_first();
        match ops[0] {
            BarOp::Inc(d) => {
                if s.current + d >= s.total {
                    lemma_finished_stays(s1, rest);
                } else {
                    lemma_ops_from(s1, rest);
                    if !has_inc(rest) {
                        lemma_no_inc_sum(rest);
                    }
                }
            },
            BarOp::Finish(m) => {
                lemma_finished_stays(s1, rest);
            },
        }
    }
}

/// For every sequence of `inc(d)` and `finish_with_message` calls on a new
/// bar of total `total`, progress never exceeds the total, and the bar is
/// finished exactly when `finish_with_message` was called or the deltas add
/// up to at least the total. (A bar of total 0 that no call has reached is
/// not finished.)
pub proof fn lemma_progress_law(total: nat, ops: Seq<BarOp>)
    requires
        total > 0 || ops.len() > 0,
    ensures
        ops_spec(fresh_spec(total), ops).current <= total,
        ops_spec(fresh_spec(total), ops).finished == (has_finish(ops) || inc_sum(ops) >= total),
        !ops_spec(fresh_spec(total), ops).finished ==> ops_spec(fresh_spec(total), ops).current
            == inc_sum(ops),
{
    lemma_ops_from(fresh_spec(total), ops);
    if !has_inc(ops) {
        lemma_no_inc_sum(ops);
        if total == 0 {
            assert(has_finish(ops)) by {
                lemma_some_call(ops);
            }
        }
    }
}

/// A non-empty run of calls holds an `inc` or a `finish_with_message`.
proof fn lemma_some_call(ops: Seq<BarOp>)
    requires
        ops.len() > 0,
    ensures
        has_inc(ops) || has_finish(ops),
{
}

/// Each wake of the render loop on an unfinished bar moves the colour index
/// one step round the palette and changes nothing else.
proof fn lemma_wakes_steps(s: BarView, n: nat, len: nat)
    requires
        !s.finished,
    ensures
        wakes_spec(s, n, len) == (BarView { color_index: cycle_steps(s.color_index, n, len), ..s }),
    decreases n,
{
    if n > 0 {
        lemma_wakes_steps(s, (n - 1) as nat, len);
    }
}

/// The colour index cycles modulo the palette's length: after `n` paints of
/// an unfinished bar that started at colour `i`, it stands at
/// `(i + n) mod len`; from a new bar, at `n mod len`.
pub proof fn lemma_color_cycles(s: BarView, n: nat, len: nat)
    requires
        len > 0,
        !s.finished,
        s.color_index < len,
    ensures
        wakes_spec(s, n, len).color_index == (s.color_index + n) % len,
        !wakes_spec(s, n, len).finished,
{
    lemma_wakes_steps(s, n, len);
    lemma_cycle_steps(s.color_index, n, len);
}

} // verus!
