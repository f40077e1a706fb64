use rsys_cli::monitor::Monitor;

#[test]
fn new_monitor_has_inverted_y_range() {
    let m = Monitor::new(0, 30);
    assert_eq!(m.y(), (u64::MAX, 0));
    assert_eq!(m.x(), (0, 30));
    assert_eq!(m.time(), 0);
}

#[test]
fn extend_y_bounds_only_widens() {
    let mut m = Monitor::new(0, 30);
    m.extend_y_bounds(50);
    assert_eq!(m.y(), (50, 50));
    m.extend_y_bounds(30);
    assert_eq!(m.y(), (30, 50));
    m.extend_y_bounds(80);
    assert_eq!(m.y(), (30, 80));
    m.extend_y_bounds(40);
    assert_eq!(m.y(), (30, 80));
}

#[test]
fn add_time_accumulates() {
    let mut m = Monitor::new(0, 30);
    m.add_time(250);
    m.add_time(260);
    assert_eq!(m.time(), 510);
}

#[test]
fn maybe_scroll_fires_past_window_edge() {
    let mut m = Monitor::new(0, 30);
    m.add_time(30);
    assert!(!m.maybe_scroll());
    m.add_time(1);
    assert!(m.maybe_scroll());
}

#[test]
fn shift_x_axis_keeps_window_width() {
    let mut m = Monitor::new(0, 30);
    m.shift_x_axis(5);
    assert_eq!(m.x(), (5, 35));
    m.shift_x_axis(7);
    assert_eq!(m.x(), (12, 42));
    let (lo, hi) = m.x();
    assert_eq!(hi - lo, 30);
    assert_eq!(m.max_x(), 42);
}

#[test]
fn y_labels_at_quartile_points() {
    let mut m = Monitor::new(0, 30);
    m.extend_y_bounds(100);
    m.extend_y_bounds(300);
    assert_eq!(m.y_label_value(0), 100);
    assert_eq!(m.y_label_value(1), 150);
    assert_eq!(m.y_label_value(2), 200);
    assert_eq!(m.y_label_value(3), 250);
    assert_eq!(m.y_label_value(4), 300);
}

#[test]
fn y_labels_round_down() {
    let mut m = Monitor::new(0, 30);
    m.extend_y_bounds(0);
    m.extend_y_bounds(10);
    assert_eq!(m.y_label_value(1), 2);
    assert_eq!(m.y_label_value(2), 5);
    assert_eq!(m.y_label_value(3), 7);
    assert_eq!(m.y_label_value(4), 10);
}
