use probar::template::{render, RenderContext};
use probar::units::Units;

fn ctx(current: u64, total: u64, elapsed_secs: u64, width: usize, message: &str) -> RenderContext {
    RenderContext {
        current,
        total,
        elapsed_secs,
        tick_glyph: '|',
        bar_start: '[',
        bar_fill: '#',
        bar_tip: '#',
        bar_empty: ' ',
        bar_end: ']',
        message: String::from(message),
        units: Units::Default,
        width,
    }
}

#[test]
fn percent_token() {
    assert_eq!(render("{percent}", &ctx(50, 100, 0, 80, "")), "50");
    assert_eq!(render("{percent}", &ctx(0, 100, 0, 80, "")), "0");
    assert_eq!(render("{percent}", &ctx(100, 100, 0, 80, "")), "100");
}

#[test]
fn percent_clamped_above_total() {
    assert_eq!(render("{percent}", &ctx(150, 100, 0, 80, "")), "100");
}

#[test]
fn count_tokens() {
    assert_eq!(render("{current}/{total}", &ctx(50, 100, 0, 80, "")), "50/100");
}

#[test]
fn count_tokens_in_bytes() {
    let mut c = ctx(2048, 4096, 0, 80, "");
    c.units = Units::Bytes;
    assert_eq!(render("{current} of {total}", &c), "2.0 KiB of 4.0 KiB");
}

#[test]
fn speed_token() {
    assert_eq!(render("{speed}", &ctx(50, 100, 10, 80, "")), "5/s");
    assert_eq!(render("{speed}", &ctx(50, 100, 0, 80, "")), "0/s");
}

#[test]
fn eta_token() {
    assert_eq!(render("{eta}", &ctx(50, 100, 10, 80, "")), "0h 0m 10s");
}

#[test]
fn eta_unknown_without_progress() {
    assert_eq!(render("{eta}", &ctx(0, 100, 10, 80, "")), "unknown");
    assert_eq!(render("{eta}", &ctx(5, 100, 0, 80, "")), "unknown");
}

#[test]
fn elapsed_token() {
    assert_eq!(render("{elapsed}", &ctx(1, 2, 3725, 80, "")), "1h 2m 5s");
}

#[test]
fn message_token() {
    assert_eq!(render("{message}done", &ctx(0, 1, 0, 80, "hi ")), "hi done");
    assert_eq!(render("{message}", &ctx(0, 1, 0, 80, "")), "");
}

#[test]
fn unrecognized_token_passes_through() {
    assert_eq!(render("{foo} x {}", &ctx(0, 1, 0, 80, "")), "{foo} x {}");
}

#[test]
fn unclosed_brace_is_literal() {
    assert_eq!(render("{bar", &ctx(0, 1, 0, 80, "")), "{bar");
}

#[test]
fn nested_brace_recovers() {
    assert_eq!(render("{x{percent}", &ctx(50, 100, 0, 80, "")), "{x50");
}

#[test]
fn bar_token_fills_width() {
    assert_eq!(render("{bar}", &ctx(50, 100, 0, 12, "")), "[#####     ]");
}

#[test]
fn bar_width_subtracts_other_tokens() {
    assert_eq!(render("ab{bar}", &ctx(50, 100, 0, 10, "")), "ab[###   ]");
}

#[test]
fn bar_full_and_empty() {
    assert_eq!(render("{bar}", &ctx(100, 100, 0, 6, "")), "[####]");
    assert_eq!(render("{bar}", &ctx(0, 100, 0, 6, "")), "[    ]");
}

#[test]
fn bar_overfull_clamps_to_inner_width() {
    assert_eq!(render("{bar}", &ctx(300, 100, 0, 6, "")), "[####]");
}

#[test]
fn bar_with_no_room_is_empty() {
    assert_eq!(render("{bar}", &ctx(50, 100, 0, 1, "")), "");
}

#[test]
fn indeterminate_mode_tokens() {
    // total == 0: the bar shows the tick glyph, percent a placeholder,
    // eta "unknown".
    let c = ctx(3, 0, 10, 80, "");
    assert_eq!(render("{bar}", &c), "|");
    assert_eq!(render("{percent}", &c), "?");
    assert_eq!(render("{eta}", &c), "unknown");
}

#[test]
fn rendering_is_idempotent_for_fixed_context() {
    let c = ctx(37, 112, 41, 40, "msg ");
    let t = "{message}{current} / {total} {bar} {percent}% {speed} {eta}";
    let first = render(t, &c);
    let second = render(t, &c);
    assert_eq!(first, second);
}
