//! One progress bar: counter and timing state, render configuration, and
//! the state machine from running to finished. Every mutation updates the
//! state, asks the throttle whether a redraw may happen, and if so returns
//! the newly rendered line; the caller writes it to the terminal.

use vstd::prelude::*;
use vstd::string::StrSliceExecFns;
use vstd::string::StringExecFns;
use crate::template::RenderContext;
use crate::template::spec_render;
use crate::template::render;
use crate::throttle::spec_throttle_allows;
use crate::throttle::throttle_allows;
use crate::units::Units;
use crate::units::push_char;

verus! {

/// The column width used when none is configured.
pub const FALLBACK_WIDTH: usize = 80;

/// A single progress indicator. Times are nanoseconds on one monotone
/// clock chosen by the caller; every operation that may redraw takes the
/// current time as an argument.
pub struct ProgressBar {
    /// Work done so far. Never clamped, and may exceed `total`.
    pub current: u64,
    /// The amount that counts as complete; 0 means indeterminate mode.
    pub total: u64,
    /// Whether the terminal `finish` transition has happened.
    pub finished: bool,
    /// Position in the tick-glyph cycle, for indeterminate mode.
    pub tick_idx: usize,
    /// When this bar's timing began.
    pub start_ns: u64,
    /// When the last redraw that passed the throttle happened.
    pub last_tick_ns: u64,
    pub units: Units,
    pub message: String,
    pub template: String,
    pub bar_start: char,
    pub bar_fill: char,
    pub bar_tip: char,
    pub bar_empty: char,
    pub bar_end: char,
    /// Glyphs cycled through in indeterminate mode; never empty.
    pub tick_chars: Vec<char>,
    /// Fixed column width, or the fallback when unset.
    pub width: Option<usize>,
    /// Minimum nanoseconds between redraws; unset means unthrottled.
    pub max_refresh_ns: Option<u128>,
}

impl ProgressBar {
    /// The bar's invariant: the tick cycle is never empty and the cycle
    /// position stays inside it.
    pub open spec fn wf(self) -> bool {
        &&& self.tick_chars@.len() > 0
        &&& self.tick_idx < self.tick_chars@.len()
    }

    /// Whole seconds since the bar's start, 0 if the clock looks earlier
    /// than the start.
    pub open spec fn spec_elapsed_secs(self, now: int) -> int {
        (if now >= self.start_ns {
            now - self.start_ns
        } else {
            0
        }) / 1000000000
    }

    /// The columns a rendering may use.
    pub open spec fn spec_width_cols(self) -> usize {
        match self.width {
            Option::Some(w) => w,
            Option::None => FALLBACK_WIDTH,
        }
    }

    /// The render context this state resolves to at time `now`.
    pub open spec fn spec_context(self, now: int) -> RenderContext {
        RenderContext {
            current: self.current,
            total: self.total,
            elapsed_secs: self.spec_elapsed_secs(now) as u64,
            tick_glyph: self.tick_chars@[self.tick_idx as int],
            bar_start: self.bar_start,
            bar_fill: self.bar_fill,
            bar_tip: self.bar_tip,
            bar_empty: self.bar_empty,
            bar_end: self.bar_end,
            message: self.message,
            units: self.units,
            width: self.spec_width_cols(),
        }
    }

    /// The line this state renders to at time `now`.
    pub open spec fn spec_line(self, now: int) -> Seq<char> {
        spec_render(self.template@, self.spec_context(now))
    }
}

/// How one throttled redraw attempt relates the state before (`pre`) to
/// the state after (`post`): a permitted attempt records its time and
/// emits the line the new state renders to; a refused one emits nothing
/// and leaves the redraw time alone. Nothing else changes either way.
pub open spec fn spec_throttled_emit(
    pre: ProgressBar,
    post: ProgressBar,
    now: int,
    line: Option<String>,
) -> bool {
    if spec_throttle_allows(now, pre.last_tick_ns as int, pre.max_refresh_ns) {
        &&& post.last_tick_ns as int == now
        &&& match line {
            Option::Some(l) => l@ == post.spec_line(now),
            Option::None => false,
        }
    } else {
        &&& post.last_tick_ns == pre.last_tick_ns
        &&& line is None
    }
}

fn str_chars(s: &str) -> (v: Vec<char>)
    ensures
        v@ == s@,
{
    let n = s.unicode_len();
    let mut v: Vec<char> = Vec::new();
    let mut i: usize = 0;
    while i < n
        invariant
            n == s@.len(),
            i <= n,
            v@ == s@.subrange(0, i as int),
        decreases n - i,
    {
        v.push(s.get_char(i));
        i = i + 1;
        proof {
            assert(v@ =~= s@.subrange(0, i as int));
        }
    }
    proof {
        assert(v@ =~= s@);
    }
    v
}

impl ProgressBar {
    /// A fresh bar over `total` units of work (0 for indeterminate mode),
    /// started at `now_ns`, with the default configuration: plain units,
    /// no message, a bracket-and-hash bar, the classic spinner glyphs, no
    /// fixed width and no throttle.
    pub fn new(total: u64, now_ns: u64) -> (bar: ProgressBar)
        ensures
            bar.wf(),
            bar.current == 0,
            bar.total == total,
            !bar.finished,
            bar.tick_idx == 0,
            bar.start_ns == now_ns,
            bar.last_tick_ns == 0,
            bar.units == Units::Default,
            bar.message@ == Seq::<char>::empty(),
            bar.template@ == "{message}{current} / {total} {bar} {percent}% {speed} {eta}"@,
            bar.bar_start == '[',
            bar.bar_fill == '#',
            bar.bar_tip == '#',
            bar.bar_empty == ' ',
            bar.bar_end == ']',
            bar.tick_chars@ == seq!['\\', '|', '/', '-'],
            bar.width is None,
            bar.max_refresh_ns is None,
    {
        let tick_chars: Vec<char> = vec!['\\', '|', '/', '-'];
        proof {
            assert(tick_chars@ =~= seq!['\\', '|', '/', '-']);
        }
        ProgressBar {
            current: 0,
            total,
            finished: false,
            tick_idx: 0,
            start_ns: now_ns,
            last_tick_ns: 0,
            units: Units::Default,
            message: String::new(),
            template: String::from_str("{message}{current} / {total} {bar} {percent}% {speed} {eta}"),
            bar_start: '[',
            bar_fill: '#',
            bar_tip: '#',
            bar_empty: ' ',
            bar_end: ']',
            tick_chars,
            width: Option::None,
            max_refresh_ns: Option::None,
        }
    }

    /// Renders the line this state shows at time `now_ns`.
    pub fn render_line(&self, now_ns: u64) -> (line: String)
        requires
            self.wf(),
        ensures
            line@ == self.spec_line(now_ns as int),
    {
        let elapsed_ns: u64 = if now_ns >= self.start_ns {
            now_ns - self.start_ns
        } else {
            0
        };
        let width = match self.width {
            Option::Some(w) => w,
            Option::None => FALLBACK_WIDTH,
        };
        let ctx = RenderContext {
            current: self.current,
            total: self.total,
            elapsed_secs: elapsed_ns / 1000000000,
            tick_glyph: self.tick_chars[self.tick_idx],
            bar_start: self.bar_start,
            bar_fill: self.bar_fill,
            bar_tip: self.bar_tip,
            bar_empty: self.bar_empty,
            bar_end: self.bar_end,
            message: self.message.clone(),
            units: self.units,
            width,
        };
        proof {
            assert(ctx == self.spec_context(now_ns as int));
        }
        render(self.template.as_str(), &ctx)
    }

    /// One redraw attempt at `now_ns`: asks the throttle, and when
    /// permitted records the time and returns the rendered line.
    fn redraw_if_allowed(&mut self, now_ns: u64) -> (line: Option<String>)
        requires
            old(self).wf(),
        ensures
            final(self).wf(),
            spec_throttled_emit(*old(self), *final(self), now_ns as int, line),
            *final(self) == (ProgressBar { last_tick_ns: final(self).last_tick_ns, ..*old(self) }),
    {
        if throttle_allows(now_ns, self.last_tick_ns, self.max_refresh_ns) {
            self.last_tick_ns = now_ns;
            Option::Some(self.render_line(now_ns))
        } else {
            Option::None
        }
    }

    /// Adds `delta` to the counter and attempts a redraw. Returns the new
    /// counter value and, when the throttle permitted, the rendered line.
    /// A finished bar ignores the call.
    pub fn add(&mut self, delta: u64, now_ns: u64) -> (r: (u64, Option<String>))
        requires
            old(self).wf(),
            old(self).current + delta <= u64::MAX,
        ensures
            final(self).wf(),
            old(self).finished ==> *final(self) == *old(self) && r.0 == old(self).current && r.1
                is None,
            !old(self).finished ==> *final(self) == (ProgressBar {
                current: (old(self).current + delta) as u64,
                last_tick_ns: final(self).last_tick_ns,
                ..*old(self)
            }),
            !old(self).finished ==> r.0 == final(self).current && spec_throttled_emit(
                *old(self),
                *final(self),
                now_ns as int,
                r.1,
            ),
    {
        if self.finished {
            return (self.current, Option::None);
        }
        self.current = self.current + delta;
        let line = self.redraw_if_allowed(now_ns);
        (self.current, line)
    }

    /// Sets the counter to `value` (even backward) and attempts a redraw.
    /// Returns the new counter value and, when permitted, the line.
    /// A finished bar ignores the call.
    pub fn set(&mut self, value: u64, now_ns: u64) -> (r: (u64, Option<String>))
        requires
            old(self).wf(),
        ensures
            final(self).wf(),
            old(self).finished ==> *final(self) == *old(self) && r.0 == old(self).current && r.1
                is None,
            !old(self).finished ==> *final(self) == (ProgressBar {
                current: value,
                last_tick_ns: final(self).last_tick_ns,
                ..*old(self)
            }),
            !old(self).finished ==> r.0 == value && spec_throttled_emit(
                *old(self),
                *final(self),
                now_ns as int,
                r.1,
            ),
    {
        if self.finished {
            return (self.current, Option::None);
        }
        self.current = value;
        let line = self.redraw_if_allowed(now_ns);
        (self.current, line)
    }

    /// Adds one: shorthand for `add(1, now_ns)`.
    pub fn inc(&mut self, now_ns: u64) -> (r: (u64, Option<String>))
        requires
            old(self).wf(),
            old(self).current + 1 <= u64::MAX,
        ensures
            final(self).wf(),
            old(self).finished ==> *final(self) == *old(self) && r.0 == old(self).current && r.1
                is None,
            !old(self).finished ==> *final(self) == (ProgressBar {
                current: (old(self).current + 1) as u64,
                last_tick_ns: final(self).last_tick_ns,
                ..*old(self)
            }),
            !old(self).finished ==> r.0 == final(self).current && spec_throttled_emit(
                *old(self),
                *final(self),
                now_ns as int,
                r.1,
            ),
    {
        self.add(1, now_ns)
    }

    /// Advances the indeterminate-mode glyph cycle by one and attempts a
    /// redraw; the counter is untouched. A finished bar ignores the call.
    pub fn tick(&mut self, now_ns: u64) -> (line: Option<String>)
        requires
            old(self).wf(),
        ensures
            final(self).wf(),
            old(self).finished ==> *final(self) == *old(self) && line is None,
            !old(self).finished ==> *final(self) == (ProgressBar {
                tick_idx: (((old(self).tick_idx + 1) as int % old(self).tick_chars@.len() as int)) as usize,
                last_tick_ns: final(self).last_tick_ns,
                ..*old(self)
            }),
            !old(self).finished ==> spec_throttled_emit(
                *old(self),
                *final(self),
                now_ns as int,
                line,
            ),
    {
        if self.finished {
            return Option::None;
        }
        let cycle_len = self.tick_chars.len();
        self.tick_idx = (self.tick_idx + 1) % cycle_len;
        self.redraw_if_allowed(now_ns)
    }

    /// Restarts the bar's timing at `now_ns`; the counter, the total and
    /// everything else stay as they are.
    pub fn reset_start_time(&mut self, now_ns: u64)
        ensures
            *final(self) == (ProgressBar { start_ns: now_ns, ..*old(self) }),
    {
        self.start_ns = now_ns;
    }

    /// The terminal transition: one unthrottled final redraw, a trailing
    /// newline so later output starts below the bar, and the move to the
    /// finished state. Finishing twice emits nothing the second time.
    pub fn finish(&mut self, now_ns: u64) -> (line: Option<String>)
        requires
            old(self).wf(),
        ensures
            final(self).wf(),
            old(self).finished ==> *final(self) == *old(self) && line is None,
            !old(self).finished ==> *final(self) == (ProgressBar {
                finished: true,
                last_tick_ns: now_ns,
                ..*old(self)
            }),
            !old(self).finished ==> match line {
                Option::Some(l) => l@ == final(self).spec_line(now_ns as int).push('\n'),
                Option::None => false,
            },
    {
        if self.finished {
            return Option::None;
        }
        let mut line = self.render_line(now_ns);
        push_char(&mut line, '\n');
        self.finished = true;
        self.last_tick_ns = now_ns;
        Option::Some(line)
    }

    /// As `finish`, but the caller's text takes the bar's line: the
    /// emitted text is `text` and a newline, in place of the bar.
    pub fn finish_print(&mut self, text: &str, now_ns: u64) -> (line: Option<String>)
        requires
            old(self).wf(),
        ensures
            final(self).wf(),
            old(self).finished ==> *final(self) == *old(self) && line is None,
            !old(self).finished ==> *final(self) == (ProgressBar {
                finished: true,
                last_tick_ns: now_ns,
                ..*old(self)
            }),
            !old(self).finished ==> match line {
                Option::Some(l) => l@ == text@.push('\n'),
                Option::None => false,
            },
    {
        if self.finished {
            return Option::None;
        }
        self.finished = true;
        self.last_tick_ns = now_ns;
        let mut out = String::from_str(text);
        push_char(&mut out, '\n');
        Option::Some(out)
    }

    /// As `finish`, but the caller's text goes on a new line below the
    /// final bar line: the emitted text is the bar line, a newline, the
    /// text, a newline.
    pub fn finish_println(&mut self, text: &str, now_ns: u64) -> (line: Option<String>)
        requires
            old(self).wf(),
        ensures
            final(self).wf(),
            old(self).finished ==> *final(self) == *old(self) && line is None,
            !old(self).finished ==> *final(self) == (ProgressBar {
                finished: true,
                last_tick_ns: now_ns,
                ..*old(self)
            }),
            !old(self).finished ==> match line {
                Option::Some(l) => l@ == final(self).spec_line(now_ns as int).push('\n') + text@
                    + seq!['\n'],
                Option::None => false,
            },
    {
        if self.finished {
            return Option::None;
        }
        let mut out = self.render_line(now_ns);
        push_char(&mut out, '\n');
        out.append(text);
        push_char(&mut out, '\n');
        self.finished = true;
        self.last_tick_ns = now_ns;
        proof {
            assert(out@ =~= old(self).spec_line(now_ns as int).push('\n') + text@ + seq!['\n']);
        }
        Option::Some(out)
    }

    /// Chooses how counter values are shown; takes effect on the next
    /// redraw.
    pub fn set_units(&mut self, units: Units)
        ensures
            *final(self) == (ProgressBar { units, ..*old(self) }),
    {
        self.units = units;
    }

    /// Sets the bar glyphs from a five-character string: left cap, fill,
    /// tip, empty, right cap. Anything else is ignored (fail-soft).
    pub fn format(&mut self, fmt: &str)
        ensures
            fmt@.len() == 5 ==> *final(self) == (ProgressBar {
                bar_start: fmt@[0],
                bar_fill: fmt@[1],
                bar_tip: fmt@[2],
                bar_empty: fmt@[3],
                bar_end: fmt@[4],
                ..*old(self)
            }),
            fmt@.len() != 5 ==> *final(self) == *old(self),
    {
        if fmt.unicode_len() == 5 {
            self.bar_start = fmt.get_char(0);
            self.bar_fill = fmt.get_char(1);
            self.bar_tip = fmt.get_char(2);
            self.bar_empty = fmt.get_char(3);
            self.bar_end = fmt.get_char(4);
        }
    }

    /// Sets the glyphs cycled in indeterminate mode and restarts the
    /// cycle. An empty string is ignored (fail-soft).
    pub fn tick_format(&mut self, fmt: &str)
        ensures
            fmt@.len() > 0 ==> final(self).tick_chars@ == fmt@ && *final(self) == (ProgressBar {
                tick_chars: final(self).tick_chars,
                tick_idx: 0,
                ..*old(self)
            }),
            fmt@.len() == 0 ==> *final(self) == *old(self),
    {
        if fmt.unicode_len() > 0 {
            self.tick_chars = str_chars(fmt);
            self.tick_idx = 0;
        }
    }

    /// Sets the free-text message prefixed to the line.
    pub fn message(&mut self, msg: &str)
        ensures
            final(self).message@ == msg@,
            *final(self) == (ProgressBar { message: final(self).message, ..*old(self) }),
    {
        self.message = String::from_str(msg);
    }

    /// Fixes the column width, or returns to the fallback with `None`.
    pub fn set_width(&mut self, width: Option<usize>)
        ensures
            *final(self) == (ProgressBar { width, ..*old(self) }),
    {
        self.width = width;
    }

    /// Sets the minimum nanoseconds between redraws, or lifts the limit
    /// with `None`.
    pub fn set_max_refresh_rate(&mut self, max_refresh_ns: Option<u128>)
        ensures
            *final(self) == (ProgressBar { max_refresh_ns, ..*old(self) }),
    {
        self.max_refresh_ns = max_refresh_ns;
    }
}

/// Whatever sequence of `add` and `set` calls produced a bar's state, as
/// long as its total is positive the percentage its line shows is
/// `min(100, 100*current/total)`: clamped for display only, and never
/// negative.
pub proof fn lemma_rendered_percent(bar: ProgressBar, now: int)
    requires
        bar.total > 0,
    ensures
        crate::template::spec_percent_text(bar.current as int, bar.total as int)
            == crate::units::spec_decimal(
            vstd::math::min(100, 100 * bar.current / bar.total as int),
        ),
        0 <= crate::template::spec_percent(bar.current as int, bar.total as int) <= 100,
        bar.spec_context(now).current == bar.current,
        bar.spec_context(now).total == bar.total,
{
    crate::template::lemma_percent_display(bar.current as int, bar.total as int);
}

/// With a minimum redraw interval `d` configured, two redraw attempts
/// less than `d` apart emit at most one line between them, whatever else
/// changed on the bar in between. (`finish` is the one unthrottled step:
/// its own contract promises exactly one line.)
pub proof fn lemma_at_most_one_redraw(
    pre: ProgressBar,
    mid: ProgressBar,
    post: ProgressBar,
    t1: int,
    t2: int,
    d: u128,
    l1: Option<String>,
    l2: Option<String>,
)
    requires
        pre.max_refresh_ns == Option::Some(d),
        mid.max_refresh_ns == Option::Some(d),
        spec_throttled_emit(pre, mid, t1, l1),
        spec_throttled_emit(mid, post, t2, l2),
        t2 < t1 + d,
    ensures
        !(l1 is Some && l2 is Some),
{
}

} // verus!
