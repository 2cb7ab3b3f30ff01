use flutter_cli::app::App;
use flutter_cli::layout::{screen_layout, screen_layout_fits, Area};
use flutter_cli::screen::{block_title, item_label, padded_tab_title, project_dir_report, tab_width};
use flutter_cli::throbber::{throbber_frame, throbber_text, truncate_millis, ThrobberStatea};
use flutter_cli::vote::nearest_majority_label;

#[test]
fn block_titles_per_tab() {
    let expect = [
        "Development",
        "Maintenance",
        "Cache Management",
        "Device Management",
        "Miscellaneous",
        "Exit",
    ];
    for (i, t) in expect.iter().enumerate() {
        assert_eq!(block_title(i), *t);
    }
}

#[test]
fn tab_width_divides_the_screen() {
    assert_eq!(tab_width(100, 7), 14);
    assert_eq!(tab_width(6, 7), 0);
    assert_eq!(tab_width(80, 65536 + 4), 20);
}

#[test]
fn tab_titles_are_padded_on_both_sides() {
    assert_eq!(padded_tab_title("exec", 20), format!("{}exec{}", " ".repeat(5), " ".repeat(5)));
    assert_eq!(padded_tab_title("checks", 8), "checks");
    assert_eq!(padded_tab_title("ios", 3), "ios");
    let w = tab_width(120, 7);
    let expect = format!("{:p$}{}{:p$}", "", "android", "", p = ((w - 7) / 3) as usize);
    assert_eq!(padded_tab_title("android", w), expect);
}

#[test]
fn item_labels_show_text_and_group() {
    assert_eq!(item_label(&"flutter run".to_string(), 1), "flutter run: 1");
    assert_eq!(item_label(&"exit".to_string(), 6), "exit: 6");
    assert_eq!(item_label(&"x".to_string(), 0), "x: 0");
    assert_eq!(item_label(&"x".to_string(), 1234567), "x: 1234567");
    assert_eq!(item_label(&"x".to_string(), -42), "x: -42");
    assert_eq!(item_label(&"x".to_string(), i32::MIN), format!("x: {}", i32::MIN));
    assert_eq!(item_label(&"x".to_string(), i32::MAX), format!("x: {}", i32::MAX));
}

#[test]
fn list_rows_mark_the_selected_row() {
    let mut app = App::new();
    app.index = 4;
    app.items.inner_states[4].selected = Some(2);
    let rows = app.list_rows();
    assert_eq!(
        rows,
        vec![
            ("flutter install: 5".to_string(), false),
            ("flutter pod clean up: 5".to_string(), false),
            ("flutter deintegrate: 5".to_string(), true),
            ("flutter repo update: 5".to_string(), false),
        ]
    );
    app.index = 9;
    assert!(app.list_rows().is_empty());
}

#[test]
fn throbber_turns_every_tenth_of_a_second() {
    assert_eq!(throbber_frame(0), "-");
    assert_eq!(throbber_frame(99), "-");
    assert_eq!(throbber_frame(100), "\\");
    assert_eq!(throbber_frame(250), "|");
    assert_eq!(throbber_frame(399), "|");
    assert_eq!(throbber_frame(400), "/");
    assert_eq!(throbber_frame(500), "-");
    assert_eq!(throbber_text(1134), "Processing... \\");
}

#[test]
fn throbber_state_counts_from_its_start() {
    let s = ThrobberStatea::new();
    let ms = s.elapsed_ms();
    assert!(ms < 60_000);
}

#[test]
fn project_dir_needs_both_markers() {
    assert_eq!(project_dir_report(true, true), (true, "You are in a Flutter project directory."));
    assert_eq!(project_dir_report(true, false), (false, "You are NOT in a Flutter project directory."));
    assert_eq!(project_dir_report(false, true).0, false);
    assert_eq!(project_dir_report(false, false).0, false);
}

fn labels(v: &[&str]) -> Vec<String> {
    v.iter().map(|s| s.to_string()).collect()
}

#[test]
fn majority_of_the_nearest_wins() {
    assert_eq!(nearest_majority_label(3, &labels(&["A", "B", "A", "B", "B"])), "A");
    assert_eq!(nearest_majority_label(5, &labels(&["A", "B", "A", "B", "B"])), "B");
    assert_eq!(nearest_majority_label(10, &labels(&["C", "A", "A"])), "A");
    assert_eq!(nearest_majority_label(1, &labels(&["C", "A", "A"])), "C");
    let tie = nearest_majority_label(2, &labels(&["A", "B", "A"]));
    assert!(tie == "A" || tie == "B");
}

#[test]
fn screen_is_cut_into_four_rows() {
    let screen = Area { x: 0, y: 0, width: 80, height: 40 };
    assert!(screen_layout_fits(screen));
    let rows = screen_layout(screen);
    assert_eq!(rows.len(), 4);
    assert_eq!(rows[0], Area { x: 5, y: 5, width: 70, height: 3 });
    for r in &rows {
        assert_eq!((r.x, r.width), (5, 70));
    }
    assert_eq!(rows[3].y + rows[3].height, 35);
    assert!(!screen_layout_fits(Area { x: 0, y: 0, width: 80, height: 2000 }));
    assert!(screen_layout_fits(Area { x: 0, y: 0, width: 80, height: 1375 }));
    assert!(!screen_layout_fits(Area { x: 65534, y: 0, width: 80, height: 40 }));
    assert!(!screen_layout_fits(Area { x: 65000, y: 0, width: 1000, height: 100 }));
    assert!(screen_layout_fits(Area { x: 65455, y: 0, width: 80, height: 100 }));
    assert!(screen_layout_fits(Area { x: 65534, y: 0, width: 8, height: 40 }));
    let rows = screen_layout(Area { x: 3, y: 7, width: 50, height: 120 });
    assert_eq!(rows.len(), 4);
    for r in &rows {
        assert_eq!((r.x, r.width), (8, 40));
    }
    assert_eq!(rows[0].y, 12);
    assert_eq!(rows[3].y + rows[3].height, 122);
    let tiny = screen_layout(Area { x: 0, y: 0, width: 8, height: 40 });
    assert_eq!(tiny, vec![Area { x: 0, y: 0, width: 0, height: 0 }; 4]);
}

#[test]
fn millisecond_counts_keep_their_low_64_bits() {
    assert_eq!(truncate_millis(0), 0);
    assert_eq!(truncate_millis(1234), 1234);
    assert_eq!(truncate_millis(u64::MAX as u128), u64::MAX);
    assert_eq!(truncate_millis((1u128 << 64) + 5), 5);
}
