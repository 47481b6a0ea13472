use probar::multibar::{BarMessage, MultiBar};

#[test]
fn rows_are_allocated_in_order() {
    let mut mb = MultiBar::new();
    let (_, first) = mb.create_bar(50, 0);
    let (_, second) = mb.create_bar(10, 0);
    assert_eq!(first, 0);
    assert_eq!(second, 1);
    assert_eq!(mb.lines.len(), 2);
    assert_eq!(mb.lines[0], "");
    assert!(!mb.all_finished());
}

#[test]
fn two_bars_keep_their_own_rows() {
    // Two bars drive the coordinator through one interleaved message
    // stream, as two producer threads would; each row must end up with
    // its own bar's final line, never the other's.
    let mut mb = MultiBar::new();
    let (mut a, row_a) = mb.create_bar(50, 0);
    let (mut b, row_b) = mb.create_bar(10, 0);
    a.template = String::from("A {current}/{total}");
    b.template = String::from("B {current}/{total}");
    let mut msgs: Vec<BarMessage> = Vec::new();
    for i in 1..=50u64 {
        let (_, line) = a.inc(i);
        msgs.push(BarMessage::Line(row_a, line.unwrap()));
        if i <= 10 {
            let (_, line) = b.inc(i);
            msgs.push(BarMessage::Line(row_b, line.unwrap()));
        }
    }
    mb.apply_all(&msgs);
    assert!(!mb.all_finished());

    let mut tail: Vec<BarMessage> = Vec::new();
    let fin_a = a.finish(1000).unwrap();
    tail.push(BarMessage::Line(row_a, fin_a.clone()));
    tail.push(BarMessage::Finished(row_a));
    assert!(!mb.all_finished());
    let fin_b = b.finish(1001).unwrap();
    tail.push(BarMessage::Line(row_b, fin_b.clone()));
    tail.push(BarMessage::Finished(row_b));
    mb.apply_all(&tail);

    // only now may a listen loop end
    assert!(mb.all_finished());
    assert_eq!(mb.lines[row_a], fin_a);
    assert_eq!(mb.lines[row_b], fin_b);
    assert!(mb.lines[row_a].starts_with("A 50/50"));
    assert!(mb.lines[row_b].starts_with("B 10/10"));
}

#[test]
fn last_line_wins_per_row() {
    let mut mb = MultiBar::new();
    let (_, row) = mb.create_bar(3, 0);
    let msgs = vec![
        BarMessage::Line(row, String::from("one")),
        BarMessage::Line(row, String::from("two")),
        BarMessage::Line(row, String::from("three")),
    ];
    mb.apply_all(&msgs);
    assert_eq!(mb.lines[row], "three");
}

#[test]
fn println_scrolls_above_the_bars() {
    let mut mb = MultiBar::new();
    let (_, row) = mb.create_bar(3, 0);
    mb.handle(&BarMessage::Println(String::from("first")));
    mb.handle(&BarMessage::Line(row, String::from("bar line")));
    mb.handle(&BarMessage::Println(String::from("second")));
    assert_eq!(mb.scrollback, vec![String::from("first"), String::from("second")]);
    assert_eq!(mb.lines[row], "bar line");
}

#[test]
fn out_of_range_rows_are_ignored() {
    let mut mb = MultiBar::new();
    let (_, row) = mb.create_bar(3, 0);
    mb.handle(&BarMessage::Line(7, String::from("lost")));
    mb.handle(&BarMessage::Finished(7));
    assert_eq!(mb.lines[row], "");
    assert!(!mb.all_finished());
}

#[test]
fn empty_coordinator_is_trivially_finished() {
    let mb = MultiBar::new();
    assert!(mb.all_finished());
}
