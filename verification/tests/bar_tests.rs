use probar::bar::ProgressBar;
use probar::time::{c_duration_to_rust_duration, TimeUnit};
use probar::units::Units;

#[test]
fn new_bar_defaults() {
    let bar = ProgressBar::new(100, 7);
    assert_eq!(bar.current, 0);
    assert_eq!(bar.total, 100);
    assert!(!bar.finished);
    assert_eq!(bar.start_ns, 7);
    assert_eq!(bar.width, None);
    assert_eq!(bar.max_refresh_ns, None);
}

#[test]
fn hundred_incs_reach_hundred_percent() {
    let mut bar = ProgressBar::new(100, 0);
    bar.template = String::from("{percent}%");
    let mut last = String::new();
    for i in 1..=100u64 {
        let (value, line) = bar.inc(i);
        assert_eq!(value, i);
        // no throttle configured: every mutation redraws
        last = line.unwrap();
    }
    assert_eq!(last, "100%");
    let fin = bar.finish(101);
    let fin = fin.unwrap();
    assert!(fin.ends_with('\n'));
    assert!(bar.finished);
    // the state machine is terminal: further calls are no-ops
    let (value, line) = bar.inc(102);
    assert_eq!(value, 100);
    assert!(line.is_none());
    assert!(bar.finish(103).is_none());
}

#[test]
fn test() {
    let count = 100;
    let mut pb = ProgressBar::new(count, 0);
    pb.format("╢▌▌░╟");
    for i in 1..=count {
        pb.inc(i);
    }
    assert_eq!(pb.current, count);
    assert_eq!(pb.bar_start, '╢');
    assert_eq!(pb.bar_end, '╟');
}

#[test]
fn add_and_set_move_the_counter() {
    let mut bar = ProgressBar::new(10, 0);
    let (v, _) = bar.add(4, 1);
    assert_eq!(v, 4);
    let (v, _) = bar.add(4, 2);
    assert_eq!(v, 8);
    // set may move backward
    let (v, _) = bar.set(2, 3);
    assert_eq!(v, 2);
    // current may exceed total: never clamped in state
    let (v, _) = bar.set(25, 4);
    assert_eq!(v, 25);
    bar.template = String::from("{percent}");
    assert_eq!(bar.render_line(5), "100");
}

#[test]
fn throttle_limits_redraws() {
    let mut bar = ProgressBar::new(10, 0);
    // one millisecond between redraws
    bar.set_max_refresh_rate(Some(c_duration_to_rust_duration(TimeUnit::Millis, 1)));
    assert_eq!(bar.max_refresh_ns, Some(1_000_000));
    let (_, first) = bar.add(1, 2_000_000);
    assert!(first.is_some());
    let (v, second) = bar.add(1, 2_500_000);
    assert_eq!(v, 2); // state still updated
    assert!(second.is_none()); // within the interval: no line
    let (_, third) = bar.add(1, 3_000_000);
    assert!(third.is_some());
    // finish ignores the throttle and always emits
    let fin = bar.finish(3_000_001);
    assert!(fin.unwrap().ends_with('\n'));
}

#[test]
fn zero_duration_means_unthrottled() {
    assert_eq!(c_duration_to_rust_duration(TimeUnit::Secs, 2), 2_000_000_000);
    assert_eq!(c_duration_to_rust_duration(TimeUnit::Micros, 3), 3_000);
    assert_eq!(c_duration_to_rust_duration(TimeUnit::Nanos, 7), 7);
}

#[test]
fn indeterminate_bar_ticks_through_glyphs() {
    let mut bar = ProgressBar::new(0, 0);
    bar.template = String::from("{bar}");
    assert_eq!(bar.render_line(0), "\\");
    let line = bar.tick(1);
    assert_eq!(line.unwrap(), "|");
    assert_eq!(bar.tick(2).unwrap(), "/");
    assert_eq!(bar.tick(3).unwrap(), "-");
    assert_eq!(bar.tick(4).unwrap(), "\\"); // the cycle wraps
}

#[test]
fn tick_format_replaces_the_cycle() {
    let mut bar = ProgressBar::new(0, 0);
    bar.template = String::from("{bar}");
    bar.tick_format("ab");
    assert_eq!(bar.tick(1).unwrap(), "b");
    assert_eq!(bar.tick(2).unwrap(), "a");
    // an empty cycle is ignored
    bar.tick_format("");
    assert_eq!(bar.tick(3).unwrap(), "b");
}

#[test]
fn format_needs_exactly_five_glyphs() {
    let mut bar = ProgressBar::new(100, 0);
    bar.format("(=> )"); // ignored: that is 5, use a wrong one below
    assert_eq!(bar.bar_start, '(');
    bar.format("??");
    assert_eq!(bar.bar_start, '('); // unchanged: not five glyphs
    bar.template = String::from("{bar}");
    bar.set_width(Some(6));
    let (_, line) = bar.set(50, 1);
    assert_eq!(line.unwrap(), "(=>  )");
}

#[test]
fn message_prefixes_the_line() {
    let mut bar = ProgressBar::new(4, 0);
    bar.message("copying ");
    bar.template = String::from("{message}{current}/{total}");
    let (_, line) = bar.add(2, 1);
    assert_eq!(line.unwrap(), "copying 2/4");
}

#[test]
fn units_show_in_counts() {
    let mut bar = ProgressBar::new(4096, 0);
    bar.set_units(Units::Bytes);
    bar.template = String::from("{current} of {total}");
    let (_, line) = bar.set(2048, 1);
    assert_eq!(line.unwrap(), "2.0 KiB of 4.0 KiB");
}

#[test]
fn reset_start_time_restarts_elapsed() {
    let mut bar = ProgressBar::new(10, 0);
    bar.template = String::from("{elapsed}");
    assert_eq!(bar.render_line(5_000_000_000), "0h 0m 5s");
    bar.reset_start_time(4_000_000_000);
    assert_eq!(bar.render_line(5_000_000_000), "0h 0m 1s");
}

#[test]
fn finish_print_takes_the_line() {
    let mut bar = ProgressBar::new(10, 0);
    let out = bar.finish_print("done", 1);
    assert_eq!(out.unwrap(), "done\n");
    assert!(bar.finished);
}

#[test]
fn finish_println_adds_a_line() {
    let mut bar = ProgressBar::new(10, 0);
    bar.template = String::from("{percent}");
    let out = bar.finish_println("done", 1);
    assert_eq!(out.unwrap(), "0\ndone\n");
    assert!(bar.finished);
}
