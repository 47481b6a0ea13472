//! The bar-template mini-language: a template is literal text with
//! placeholder tokens in braces, such as `{percent}` or `{bar}`.
//! Recognized tokens are replaced by values drawn from a render context;
//! anything else passes through unchanged.

use vstd::prelude::*;
use vstd::string::StrSliceExecFns;
use vstd::string::StringExecFns;
use crate::units::Units;
use crate::units::push_char;
use crate::units::spec_decimal;
use crate::units::spec_format_value;
use crate::units::u64_to_decimal;
use crate::units::format_value;

verus! {

/// The placeholder tokens a template may carry.
#[derive(Clone, Copy, PartialEq, Eq, Structural, Debug)]
pub enum TokenKind {
    Bar,
    Percent,
    Current,
    Total,
    Speed,
    Eta,
    Elapsed,
    Message,
}

/// The text that stands in for each token of one rendering.
pub ghost struct TokenVals {
    pub bar: Seq<char>,
    pub percent: Seq<char>,
    pub current: Seq<char>,
    pub total: Seq<char>,
    pub speed: Seq<char>,
    pub eta: Seq<char>,
    pub elapsed: Seq<char>,
    pub message: Seq<char>,
}

pub open spec fn spec_token_text(vals: TokenVals, k: TokenKind) -> Seq<char> {
    match k {
        TokenKind::Bar => vals.bar,
        TokenKind::Percent => vals.percent,
        TokenKind::Current => vals.current,
        TokenKind::Total => vals.total,
        TokenKind::Speed => vals.speed,
        TokenKind::Eta => vals.eta,
        TokenKind::Elapsed => vals.elapsed,
        TokenKind::Message => vals.message,
    }
}

/// The token a brace-delimited name denotes, if any.
pub open spec fn spec_token_of(name: Seq<char>) -> Option<TokenKind> {
    if name == seq!['b', 'a', 'r'] {
        Option::Some(TokenKind::Bar)
    } else if name == seq!['p', 'e', 'r', 'c', 'e', 'n', 't'] {
        Option::Some(TokenKind::Percent)
    } else if name == seq!['c', 'u', 'r', 'r', 'e', 'n', 't'] {
        Option::Some(TokenKind::Current)
    } else if name == seq!['t', 'o', 't', 'a', 'l'] {
        Option::Some(TokenKind::Total)
    } else if name == seq!['s', 'p', 'e', 'e', 'd'] {
        Option::Some(TokenKind::Speed)
    } else if name == seq!['e', 't', 'a'] {
        Option::Some(TokenKind::Eta)
    } else if name == seq!['e', 'l', 'a', 'p', 's', 'e', 'd'] {
        Option::Some(TokenKind::Elapsed)
    } else if name == seq!['m', 'e', 's', 's', 'a', 'g', 'e'] {
        Option::Some(TokenKind::Message)
    } else {
        Option::None
    }
}

/// The position of the first `}` at or after `i`, or the length of `t`
/// when there is none.
pub open spec fn spec_close_from(t: Seq<char>, i: int) -> int
    decreases t.len() - i,
{
    if i < 0 || i >= t.len() {
        t.len() as int
    } else if t[i] == '}' {
        i
    } else {
        spec_close_from(t, i + 1)
    }
}

pub proof fn lemma_close_from_bounds(t: Seq<char>, i: int)
    requires
        0 <= i <= t.len(),
    ensures
        i <= spec_close_from(t, i) <= t.len(),
    decreases t.len() - i,
{
    if i < t.len() && t[i] != '}' {
        lemma_close_from_bounds(t, i + 1);
    }
}

/// Rendering of the template suffix that starts at `i`: a recognized
/// `{token}` becomes its value, every other character stands as itself.
/// A `{` whose name is unrecognized, or which no `}` follows, is literal.
pub open spec fn spec_render_toks(t: Seq<char>, vals: TokenVals, i: int) -> Seq<char>
    decreases t.len() - i,
    via spec_render_toks_dec
{
    if i < 0 || i >= t.len() {
        Seq::empty()
    } else if t[i] == '{' {
        let j = spec_close_from(t, i + 1);
        if j < t.len() {
            match spec_token_of(t.subrange(i + 1, j)) {
                Option::Some(k) => spec_token_text(vals, k) + spec_render_toks(t, vals, j + 1),
                Option::None => seq![t[i]] + spec_render_toks(t, vals, i + 1),
            }
        } else {
            seq![t[i]] + spec_render_toks(t, vals, i + 1)
        }
    } else {
        seq![t[i]] + spec_render_toks(t, vals, i + 1)
    }
}

#[via_fn]
proof fn spec_render_toks_dec(t: Seq<char>, vals: TokenVals, i: int) {
    if 0 <= i && i < t.len() {
        lemma_close_from_bounds(t, i + 1);
    }
}

/// The token values of one rendering, as owned strings.
pub struct TokenStrings {
    pub bar: String,
    pub percent: String,
    pub current: String,
    pub total: String,
    pub speed: String,
    pub eta: String,
    pub elapsed: String,
    pub message: String,
}

pub open spec fn spec_vals_of(ts: TokenStrings) -> TokenVals {
    TokenVals {
        bar: ts.bar@,
        percent: ts.percent@,
        current: ts.current@,
        total: ts.total@,
        speed: ts.speed@,
        eta: ts.eta@,
        elapsed: ts.elapsed@,
        message: ts.message@,
    }
}

fn token_string(ts: &TokenStrings, k: TokenKind) -> (r: String)
    ensures
        r@ == spec_token_text(spec_vals_of(*ts), k),
{
    match k {
        TokenKind::Bar => ts.bar.clone(),
        TokenKind::Percent => ts.percent.clone(),
        TokenKind::Current => ts.current.clone(),
        TokenKind::Total => ts.total.clone(),
        TokenKind::Speed => ts.speed.clone(),
        TokenKind::Eta => ts.eta.clone(),
        TokenKind::Elapsed => ts.elapsed.clone(),
        TokenKind::Message => ts.message.clone(),
    }
}

fn close_from(t: &str, i: usize, n: usize) -> (j: usize)
    requires
        t@.len() == n,
        i <= n,
    ensures
        j as int == spec_close_from(t@, i as int),
        i <= j <= n,
    decreases n - i,
{
    if i >= n {
        n
    } else if t.get_char(i) == '}' {
        i
    } else {
        close_from(t, i + 1, n)
    }
}

fn str_range_is(t: &str, lo: usize, hi: usize, kw: &str) -> (r: bool)
    requires
        lo <= hi <= t@.len(),
    ensures
        r == (t@.subrange(lo as int, hi as int) == kw@),
{
    let m = kw.unicode_len();
    if hi - lo != m {
        proof {
            assert(t@.subrange(lo as int, hi as int).len() != kw@.len());
        }
        return false;
    }
    let mut k: usize = 0;
    while k < m
        invariant
            lo <= hi <= t@.len(),
            hi - lo == m == kw@.len(),
            k <= m,
            forall|l: int| 0 <= l < k ==> t@[lo + l] == kw@[l],
        decreases m - k,
    {
        if t.get_char(lo + k) != kw.get_char(k) {
            proof {
                assert(t@.subrange(lo as int, hi as int)[k as int] != kw@[k as int]);
            }
            return false;
        }
        k = k + 1;
    }
    proof {
        assert(t@.subrange(lo as int, hi as int) =~= kw@);
    }
    true
}

fn token_lookup(t: &str, lo: usize, hi: usize) -> (r: Option<TokenKind>)
    requires
        lo <= hi <= t@.len(),
    ensures
        r == spec_token_of(t@.subrange(lo as int, hi as int)),
{
    proof {
        reveal_strlit("bar");
        reveal_strlit("percent");
        reveal_strlit("current");
        reveal_strlit("total");
        reveal_strlit("speed");
        reveal_strlit("eta");
        reveal_strlit("elapsed");
        reveal_strlit("message");
        assert("bar"@ =~= seq!['b', 'a', 'r']);
        assert("percent"@ =~= seq!['p', 'e', 'r', 'c', 'e', 'n', 't']);
        assert("current"@ =~= seq!['c', 'u', 'r', 'r', 'e', 'n', 't']);
        assert("total"@ =~= seq!['t', 'o', 't', 'a', 'l']);
        assert("speed"@ =~= seq!['s', 'p', 'e', 'e', 'd']);
        assert("eta"@ =~= seq!['e', 't', 'a']);
        assert("elapsed"@ =~= seq!['e', 'l', 'a', 'p', 's', 'e', 'd']);
        assert("message"@ =~= seq!['m', 'e', 's', 's', 'a', 'g', 'e']);
    }
    if str_range_is(t, lo, hi, "bar") {
        Option::Some(TokenKind::Bar)
    } else if str_range_is(t, lo, hi, "percent") {
        Option::Some(TokenKind::Percent)
    } else if str_range_is(t, lo, hi, "current") {
        Option::Some(TokenKind::Current)
    } else if str_range_is(t, lo, hi, "total") {
        Option::Some(TokenKind::Total)
    } else if str_range_is(t, lo, hi, "speed") {
        Option::Some(TokenKind::Speed)
    } else if str_range_is(t, lo, hi, "eta") {
        Option::Some(TokenKind::Eta)
    } else if str_range_is(t, lo, hi, "elapsed") {
        Option::Some(TokenKind::Elapsed)
    } else if str_range_is(t, lo, hi, "message") {
        Option::Some(TokenKind::Message)
    } else {
        Option::None
    }
}

fn prepend_char(c: char, tail: String) -> (r: String)
    ensures
        r@ == seq![c] + tail@,
{
    let mut s = String::new();
    push_char(&mut s, c);
    let r = s.concat(tail.as_str());
    proof {
        assert(r@ =~= seq![c] + tail@);
    }
    r
}

fn render_toks_from(t: &str, ts: &TokenStrings, i: usize, n: usize) -> (r: String)
    requires
        t@.len() == n,
        i <= n,
    ensures
        r@ == spec_render_toks(t@, spec_vals_of(*ts), i as int),
    decreases n - i,
{
    if i >= n {
        let r = String::new();
        proof {
            assert(r@ =~= spec_render_toks(t@, spec_vals_of(*ts), i as int));
        }
        return r;
    }
    let c = t.get_char(i);
    if c == '{' {
        let j = close_from(t, i + 1, n);
        if j < n {
            match token_lookup(t, i + 1, j) {
                Option::Some(k) => {
                    let head = token_string(ts, k);
                    let tail = render_toks_from(t, ts, j + 1, n);
                    let r = head.concat(tail.as_str());
                    proof {
                        assert(r@ == spec_render_toks(t@, spec_vals_of(*ts), i as int));
                    }
                    r
                },
                Option::None => prepend_char(c, render_toks_from(t, ts, i + 1, n)),
            }
        } else {
            prepend_char(c, render_toks_from(t, ts, i + 1, n))
        }
    } else {
        prepend_char(c, render_toks_from(t, ts, i + 1, n))
    }
}

/// Everything one rendering reads: counter state, timing already reduced
/// to elapsed whole seconds, the glyph configuration, and the line width
/// the output may use.
pub struct RenderContext {
    pub current: u64,
    pub total: u64,
    pub elapsed_secs: u64,
    pub tick_glyph: char,
    pub bar_start: char,
    pub bar_fill: char,
    pub bar_tip: char,
    pub bar_empty: char,
    pub bar_end: char,
    pub message: String,
    pub units: Units,
    pub width: usize,
}

/// The display percentage: `current/total` in percent, clamped to 100,
/// and 0 for an indeterminate bar (`total == 0`). The stored counter is
/// never clamped; this only governs what is shown.
pub open spec fn spec_percent(current: int, total: int) -> int {
    if total == 0 {
        0
    } else if 100 * current / total > 100 {
        100
    } else {
        100 * current / total
    }
}

/// What the `percent` token shows: the display percentage, or a
/// placeholder when the bar is indeterminate.
pub open spec fn spec_percent_text(current: int, total: int) -> Seq<char> {
    if total == 0 {
        seq!['?']
    } else {
        spec_decimal(spec_percent(current, total))
    }
}

/// Progress per second, 0 while no whole second has elapsed.
pub open spec fn spec_rate(current: int, elapsed_secs: int) -> int {
    if elapsed_secs <= 0 {
        0
    } else {
        current / elapsed_secs
    }
}

/// A span of whole seconds as `Hh Mm Ss`.
pub open spec fn spec_hms(s: int) -> Seq<char> {
    spec_decimal(s / 3600) + seq!['h', ' '] + spec_decimal((s % 3600) / 60) + seq!['m', ' ']
        + spec_decimal(s % 60) + seq!['s']
}

/// What the `speed` token shows: the rate under the configured units,
/// with a per-second suffix.
pub open spec fn spec_speed_text(current: int, elapsed_secs: int, units: Units) -> Seq<char> {
    spec_format_value(spec_rate(current, elapsed_secs), units) + seq!['/', 's']
}

/// What the `eta` token shows: the remaining work divided by the rate,
/// or "unknown" while nothing has been counted or no rate exists yet.
pub open spec fn spec_eta_text(current: int, total: int, elapsed_secs: int) -> Seq<char> {
    let r = spec_rate(current, elapsed_secs);
    if current == 0 || r == 0 {
        seq!['u', 'n', 'k', 'n', 'o', 'w', 'n']
    } else {
        spec_hms((if total > current {
            total - current
        } else {
            0
        }) / r)
    }
}

/// `n` copies of one character.
pub open spec fn spec_char_run(c: char, n: int) -> Seq<char> {
    if n <= 0 {
        Seq::empty()
    } else {
        Seq::new(n as nat, |i| c)
    }
}

/// What the `bar` token shows in `w` columns. A determinate bar is a
/// left cap, a run of fill glyphs ending in the tip, empty glyphs for
/// the rest, and a right cap; the filled share is `current/total` of the
/// inner width, never more than the inner width. An indeterminate bar
/// (`total == 0`) is the current tick glyph alone.
pub open spec fn spec_bar_run(ctx: RenderContext, w: int) -> Seq<char> {
    if ctx.total == 0 {
        seq![ctx.tick_glyph]
    } else if w < 2 {
        Seq::empty()
    } else {
        let inner = w - 2;
        let q = inner * ctx.current / (ctx.total as int);
        let filled = if q > inner {
            inner
        } else {
            q
        };
        seq![ctx.bar_start] + (if filled > 0 {
            spec_char_run(ctx.bar_fill, filled - 1).push(ctx.bar_tip)
        } else {
            Seq::empty()
        }) + spec_char_run(ctx.bar_empty, inner - filled) + seq![ctx.bar_end]
    }
}

/// The token values a context resolves to, given the bar run's text.
pub open spec fn spec_token_vals(ctx: RenderContext, bar: Seq<char>) -> TokenVals {
    TokenVals {
        bar: bar,
        percent: spec_percent_text(ctx.current as int, ctx.total as int),
        current: spec_format_value(ctx.current as int, ctx.units),
        total: spec_format_value(ctx.total as int, ctx.units),
        speed: spec_speed_text(ctx.current as int, ctx.elapsed_secs as int, ctx.units),
        eta: spec_eta_text(ctx.current as int, ctx.total as int, ctx.elapsed_secs as int),
        elapsed: spec_hms(ctx.elapsed_secs as int),
        message: ctx.message@,
    }
}

/// What `render` returns: the template with every token replaced. The
/// bar run's width is whatever the configured width leaves once all
/// other text is placed, with a floor of zero.
pub open spec fn spec_render(t: Seq<char>, ctx: RenderContext) -> Seq<char> {
    let base = spec_render_toks(t, spec_token_vals(ctx, Seq::empty()), 0);
    let w: int = if ctx.width as int > base.len() {
        ctx.width - base.len()
    } else {
        0
    };
    spec_render_toks(t, spec_token_vals(ctx, spec_bar_run(ctx, w)), 0)
}

/// The display percentage, as a value.
pub fn percent_value(current: u64, total: u64) -> (p: u64)
    ensures
        p as int == spec_percent(current as int, total as int),
{
    if total == 0 {
        0
    } else {
        let wide: u128 = (current as u128) * 100 / (total as u128);
        if wide > 100 {
            100
        } else {
            wide as u64
        }
    }
}

fn percent_text(current: u64, total: u64) -> (s: String)
    ensures
        s@ == spec_percent_text(current as int, total as int),
{
    if total == 0 {
        let mut s = String::new();
        push_char(&mut s, '?');
        proof {
            assert(s@ =~= seq!['?']);
        }
        s
    } else {
        u64_to_decimal(percent_value(current, total))
    }
}

fn rate_value(current: u64, elapsed_secs: u64) -> (r: u64)
    ensures
        r as int == spec_rate(current as int, elapsed_secs as int),
{
    if elapsed_secs == 0 {
        0
    } else {
        current / elapsed_secs
    }
}

fn hms_text(secs: u64) -> (s: String)
    ensures
        s@ == spec_hms(secs as int),
{
    let mut s = u64_to_decimal(secs / 3600);
    push_char(&mut s, 'h');
    push_char(&mut s, ' ');
    let minutes = u64_to_decimal((secs % 3600) / 60);
    s.append(minutes.as_str());
    push_char(&mut s, 'm');
    push_char(&mut s, ' ');
    let seconds = u64_to_decimal(secs % 60);
    s.append(seconds.as_str());
    push_char(&mut s, 's');
    proof {
        assert(s@ =~= spec_hms(secs as int));
    }
    s
}

fn speed_text(current: u64, elapsed_secs: u64, units: Units) -> (s: String)
    ensures
        s@ == spec_speed_text(current as int, elapsed_secs as int, units),
{
    let mut s = format_value(rate_value(current, elapsed_secs), units);
    s.append("/s");
    proof {
        reveal_strlit("/s");
        assert("/s"@ =~= seq!['/', 's']);
    }
    s
}

fn eta_text(current: u64, total: u64, elapsed_secs: u64) -> (s: String)
    ensures
        s@ == spec_eta_text(current as int, total as int, elapsed_secs as int),
{
    let r = rate_value(current, elapsed_secs);
    if current == 0 || r == 0 {
        let s = String::from_str("unknown");
        proof {
            reveal_strlit("unknown");
            assert(s@ =~= seq!['u', 'n', 'k', 'n', 'o', 'w', 'n']);
        }
        s
    } else {
        let remaining = if total > current {
            total - current
        } else {
            0
        };
        hms_text(remaining / r)
    }
}

fn char_run(c: char, n: usize) -> (s: String)
    ensures
        s@ == spec_char_run(c, n as int),
{
    let mut s = String::new();
    let mut k: usize = 0;
    while k < n
        invariant
            k <= n,
            s@ == spec_char_run(c, k as int),
        decreases n - k,
    {
        push_char(&mut s, c);
        k = k + 1;
        proof {
            assert(s@ =~= spec_char_run(c, k as int));
        }
    }
    s
}

fn bar_run(ctx: &RenderContext, w: usize) -> (s: String)
    ensures
        s@ == spec_bar_run(*ctx, w as int),
{
    if ctx.total == 0 {
        let mut s = String::new();
        push_char(&mut s, ctx.tick_glyph);
        proof {
            assert(s@ =~= seq![ctx.tick_glyph]);
        }
        s
    } else if w < 2 {
        let s = String::new();
        proof {
            assert(s@ =~= Seq::<char>::empty());
        }
        s
    } else {
        let inner = w - 2;
        proof {
            vstd::arithmetic::mul::lemma_mul_upper_bound(
                inner as int,
                0xffffffffffffffff,
                ctx.current as int,
                0xffffffffffffffff,
            );
        }
        let wide: u128 = (inner as u128) * (ctx.current as u128) / (ctx.total as u128);
        let filled: usize = if wide > inner as u128 {
            inner
        } else {
            wide as usize
        };
        let mut s = String::new();
        push_char(&mut s, ctx.bar_start);
        if filled > 0 {
            let fills = char_run(ctx.bar_fill, filled - 1);
            s.append(fills.as_str());
            push_char(&mut s, ctx.bar_tip);
        }
        let empties = char_run(ctx.bar_empty, inner - filled);
        s.append(empties.as_str());
        push_char(&mut s, ctx.bar_end);
        proof {
            assert(s@ =~= spec_bar_run(*ctx, w as int));
        }
        s
    }
}

fn build_token_strings(ctx: &RenderContext, bar: String) -> (ts: TokenStrings)
    ensures
        spec_vals_of(ts) == spec_token_vals(*ctx, bar@),
{
    let ts = TokenStrings {
        bar: bar,
        percent: percent_text(ctx.current, ctx.total),
        current: format_value(ctx.current, ctx.units),
        total: format_value(ctx.total, ctx.units),
        speed: speed_text(ctx.current, ctx.elapsed_secs, ctx.units),
        eta: eta_text(ctx.current, ctx.total, ctx.elapsed_secs),
        elapsed: hms_text(ctx.elapsed_secs),
        message: ctx.message.clone(),
    };
    ts
}

/// Renders a template against a context. Recognized `{token}`
/// placeholders are replaced, everything else passes through; the `bar`
/// token fills the width the other text leaves free.
pub fn render(template: &str, ctx: &RenderContext) -> (r: String)
    ensures
        r@ == spec_render(template@, *ctx),
{
    let n = template.unicode_len();
    let ts0 = build_token_strings(ctx, String::new());
    let base = render_toks_from(template, &ts0, 0, n);
    let base_len = base.unicode_len();
    let w: usize = if ctx.width > base_len {
        ctx.width - base_len
    } else {
        0
    };
    let bar = bar_run(ctx, w);
    let ts = build_token_strings(ctx, bar);
    render_toks_from(template, &ts, 0, n)
}

/// Rendering has no hidden inputs: for a fixed template and context,
/// any two results that meet `render`'s contract are identical, so
/// rendering twice with unchanged state gives byte-identical lines.
pub proof fn lemma_render_deterministic(t: Seq<char>, ctx: RenderContext, a: Seq<char>, b: Seq<char>)
    requires
        a == spec_render(t, ctx),
        b == spec_render(t, ctx),
    ensures
        a == b,
{
}

/// For a positive total the display percentage is
/// `min(100, 100*current/total)` and never negative.
pub proof fn lemma_percent_display(current: int, total: int)
    requires
        total > 0,
        current >= 0,
    ensures
        spec_percent(current, total) == vstd::math::min(100, 100 * current / total),
        0 <= spec_percent(current, total) <= 100,
{
    assert(100 * current / total >= 0) by (nonlinear_arith)
        requires
            current >= 0,
            total > 0,
    ;
}

} // verus!
