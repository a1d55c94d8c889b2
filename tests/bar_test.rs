use throbberous::palette::{color_at, next_index};
use throbberous::ratio::{filled_len, percent, rounded_div};
use throbberous::{BarConfig, BarState, Color};

fn bar_line(filled: usize, blank: usize, pct: &str, msg: &str) -> String {
    format!("[{}{}] {}% {}", "=".repeat(filled), " ".repeat(blank), pct, msg)
}

#[test]
fn test_bar() {
    let mut bar = BarState::new(100);
    for _ in 0..100 {
        assert!(bar.inc(1));
    }
    assert!(bar.finished);
    assert_eq!(bar.current, 100);
    bar.finish_with_message("Done!");
    assert_eq!(bar.current, 100);
    assert!(bar.finished);
    assert_eq!(bar.message, "Done!");
    let paint = bar.paint(&BarConfig::default());
    assert_eq!(paint.text, bar_line(40, 0, "100", "Done!"));
    assert!(paint.last);
}

#[test]
fn four_unit_bar_halfway_and_done() {
    let config = BarConfig::default();
    let mut bar = BarState::new(4);
    bar.inc(1);
    bar.inc(1);
    assert_eq!(bar.current, 2);
    assert!(!bar.finished);
    assert_eq!(filled_len(bar.current, bar.total, config.width), 20);
    assert_eq!(percent(bar.current, bar.total), 50);
    assert_eq!(bar.paint(&config).text, bar_line(20, 20, "50", ""));
    bar.inc(1);
    assert!(!bar.finished);
    bar.inc(1);
    assert!(bar.finished);
    assert_eq!(bar.current, 4);
}

#[test]
fn finish_with_message_completes_fresh_bar() {
    let mut bar = BarState::new(10);
    bar.finish_with_message("X");
    assert_eq!(bar.current, 10);
    assert_eq!(bar.total, 10);
    assert!(bar.finished);
    assert_eq!(bar.message, "X");
}

#[test]
fn finish_with_message_after_progress() {
    let mut bar = BarState::new(10);
    bar.inc(3);
    bar.inc(2);
    bar.finish_with_message("X");
    assert_eq!(bar.current, 10);
    assert!(bar.finished);
    assert_eq!(bar.message, "X");
}

#[test]
fn inc_after_finish_is_ignored() {
    let mut bar = BarState::new(5);
    assert!(bar.inc(5));
    assert!(bar.finished);
    assert!(!bar.inc(3));
    assert_eq!(bar.current, 5);
    assert!(bar.finished);
    bar.finish_with_message("ok");
    assert!(!bar.inc(1));
    assert_eq!(bar.current, 5);
    assert!(bar.finished);
}

#[test]
fn inc_stops_at_total() {
    let mut bar = BarState::new(10);
    bar.inc(7);
    assert_eq!(bar.current, 7);
    assert!(!bar.finished);
    bar.inc(7);
    assert_eq!(bar.current, 10);
    assert!(bar.finished);
}

#[test]
fn inc_cumulative_sum_decides_finish() {
    let mut bar = BarState::new(9);
    for d in [2u64, 3, 0, 3] {
        bar.inc(d);
        assert!(bar.current <= bar.total);
    }
    assert_eq!(bar.current, 8);
    assert!(!bar.finished);
    bar.inc(1);
    assert!(bar.finished);
}

#[test]
fn inc_with_largest_values_does_not_overflow() {
    let mut bar = BarState::new(u64::MAX);
    bar.inc(1);
    bar.inc(u64::MAX);
    assert_eq!(bar.current, u64::MAX);
    assert!(bar.finished);
}

#[test]
fn zero_total_bar() {
    let config = BarConfig::default();
    let mut bar = BarState::new(0);
    assert!(!bar.finished);
    assert_eq!(bar.paint(&config).text, bar_line(40, 0, "100", ""));
    assert!(bar.inc(0));
    assert!(bar.finished);
    assert_eq!(bar.current, 0);
}

#[test]
fn color_index_cycles_with_paints() {
    let config = BarConfig::default();
    let mut bar = BarState::new(10);
    let expected = [Color::Green, Color::Yellow, Color::Magenta, Color::Cyan, Color::Green];
    for (n, color) in expected.iter().enumerate() {
        let paint = bar.on_wake(&config);
        assert_eq!(paint.color, *color);
        assert!(!paint.last);
        assert_eq!(bar.color_index, (n + 1) % 4);
    }
    assert_eq!(bar.color_index, 1);
}

#[test]
fn last_paint_keeps_color_index() {
    let config = BarConfig::default();
    let mut bar = BarState::new(2);
    bar.on_wake(&config);
    bar.inc(2);
    let paint = bar.on_wake(&config);
    assert!(paint.last);
    assert_eq!(paint.color, Color::Yellow);
    assert_eq!(bar.color_index, 1);
    assert_eq!(paint.text, bar_line(40, 0, "100", ""));
}

#[test]
fn paint_line_layout() {
    let config = BarConfig { colors: vec![Color::Red], color_cycle_delay: 0, width: 10 };
    let mut bar = BarState::new(3);
    bar.inc(1);
    bar.message = String::from("copying");
    let paint = bar.paint(&config);
    assert_eq!(paint.text, "[===       ] 33% copying");
    assert_eq!(paint.color, Color::Red);
    bar.inc(1);
    assert_eq!(bar.paint(&config).text, "[=======   ] 67% copying");
}

#[test]
fn paint_single_digit_percent() {
    let config = BarConfig { colors: vec![Color::Blue], color_cycle_delay: 0, width: 4 };
    let mut bar = BarState::new(100);
    bar.inc(7);
    assert_eq!(bar.paint(&config).text, "[    ] 7% ");
    let empty = BarState::new(100);
    assert_eq!(empty.paint(&config).text, "[    ] 0% ");
}

#[test]
fn paint_color_out_of_palette_is_white() {
    let config = BarConfig { colors: vec![Color::Blue], color_cycle_delay: 0, width: 4 };
    let mut bar = BarState::new(100);
    bar.color_index = 5;
    assert_eq!(bar.paint(&config).color, Color::White);
    assert_eq!(color_at(&config.colors, 0), Color::Blue);
}

#[test]
fn default_bar_config() {
    let config = BarConfig::default();
    assert_eq!(config.colors, vec![Color::Green, Color::Yellow, Color::Magenta, Color::Cyan]);
    assert_eq!(config.color_cycle_delay, 600);
    assert_eq!(config.width, 40);
}

#[test]
fn rounding_halves_up() {
    assert_eq!(rounded_div(1, 2), 1);
    assert_eq!(rounded_div(5, 4), 1);
    assert_eq!(rounded_div(3, 2), 2);
    assert_eq!(rounded_div(7, 3), 2);
    assert_eq!(rounded_div(0, 9), 0);
    assert_eq!(rounded_div(u128::MAX, 1), u128::MAX);
    assert_eq!(rounded_div(u128::MAX, 2), u128::MAX / 2 + 1);
}

#[test]
fn filled_and_percent_values() {
    assert_eq!(filled_len(1, 3, 40), 13);
    assert_eq!(filled_len(1, 8, 4), 1);
    assert_eq!(filled_len(0, 8, 4), 0);
    assert_eq!(filled_len(8, 8, 4), 4);
    assert_eq!(filled_len(0, 0, 4), 4);
    assert_eq!(filled_len(u64::MAX, u64::MAX, usize::MAX), usize::MAX);
    assert_eq!(filled_len(u64::MAX - 1, u64::MAX, 2), 2);
    assert_eq!(percent(1, 3), 33);
    assert_eq!(percent(2, 3), 67);
    assert_eq!(percent(1, 200), 1);
    assert_eq!(percent(0, 0), 100);
}

#[test]
fn next_index_wraps() {
    assert_eq!(next_index(0, 4), 1);
    assert_eq!(next_index(3, 4), 0);
    assert_eq!(next_index(0, 1), 0);
    assert_eq!(next_index(9, 4), 2);
    assert_eq!(next_index(usize::MAX, 2), 0);
}
