use rsys_cli::widget::MetricWidget;

fn cpu_widget(cores: usize, width: u64) -> MetricWidget {
    let mut labels = Vec::new();
    for i in 0..cores {
        labels.push(format!("cpu{}", i));
    }
    MetricWidget::new(labels, width)
}

#[test]
fn new_widget_tracks_empty_series() {
    let w = cpu_widget(2, 30);
    assert_eq!(w.sub_metric_count(), 2);
    assert_eq!(w.label(0), "cpu0");
    assert_eq!(w.label(1), "cpu1");
    assert_eq!(w.series_points(0), vec![]);
    assert_eq!(w.series_points(1), vec![]);
    assert_eq!(w.monitor().x(), (0, 30));
    assert_eq!(w.monitor().time(), 0);
    assert_eq!(w.latest_values(), vec![None, None]);
}

#[test]
fn update_appends_and_widens() {
    let mut w = cpu_widget(2, 30);
    let r = w.update(1, &vec![Some(500), Some(700)]);
    assert!(r.is_ok());
    assert_eq!(w.series_points(0), vec![(1, 500)]);
    assert_eq!(w.series_points(1), vec![(1, 700)]);
    assert_eq!(w.monitor().y(), (500, 700));
    assert_eq!(w.monitor().time(), 1);
    let r = w.update(2, &vec![Some(400), Some(800)]);
    assert!(r.is_ok());
    assert_eq!(w.series_points(0), vec![(1, 500), (3, 400)]);
    assert_eq!(w.series_points(1), vec![(1, 700), (3, 800)]);
    assert_eq!(w.monitor().y(), (400, 800));
    assert_eq!(w.latest_values(), vec![Some(400), Some(800)]);
}

#[test]
fn failed_poll_applies_nothing() {
    let mut w = cpu_widget(3, 30);
    let r = w.update(1, &vec![Some(500), None, Some(700)]);
    let e = r.err().expect("a missing reading must fail the tick");
    assert_eq!(e.index, 1);
    assert_eq!(e.label, "cpu1");
    assert_eq!(w.series_points(0), vec![]);
    assert_eq!(w.series_points(1), vec![]);
    assert_eq!(w.series_points(2), vec![]);
    assert_eq!(w.monitor().time(), 0);
    assert_eq!(w.monitor().y(), (u64::MAX, 0));
}

#[test]
fn first_failed_sub_metric_is_named() {
    let mut w = cpu_widget(3, 30);
    let r = w.update(1, &vec![None, None, Some(700)]);
    let e = r.err().unwrap();
    assert_eq!(e.index, 0);
    assert_eq!(e.label, "cpu0");
}

#[test]
fn coordinated_eviction_keeps_series_aligned() {
    let mut w = cpu_widget(2, 3);
    for t in 1..=4u64 {
        let r = w.update(1, &vec![Some(10 * t), Some(20 * t)]);
        assert!(r.is_ok());
    }
    // the fourth tick crossed the window edge: both series evicted exactly
    // one oldest sample in the same step
    assert_eq!(w.series_points(0), vec![(2, 20), (3, 30), (4, 40)]);
    assert_eq!(w.series_points(1), vec![(2, 40), (3, 60), (4, 80)]);
    assert_eq!(w.series_points(0).len(), w.series_points(1).len());
    // the window advanced by the gap between the evicted and the new
    // earliest sample, keeping its width
    assert_eq!(w.monitor().x(), (1, 4));
}

#[test]
fn window_scrolls_by_gap_after_sparse_ticks() {
    let mut w = cpu_widget(1, 10);
    let r = w.update(4, &vec![Some(1)]);
    assert!(r.is_ok());
    let r = w.update(9, &vec![Some(2)]);
    assert!(r.is_ok());
    // elapsed 13 passed the edge 10: the sample at time 4 leaves and the
    // window advances by the gap 13 - 4 = 9
    assert_eq!(w.series_points(0), vec![(13, 2)]);
    assert_eq!(w.monitor().x(), (9, 19));
}

#[test]
fn window_retention_stays_bounded() {
    let mut w = cpu_widget(1, 30);
    for t in 1..=35u64 {
        let r = w.update(1, &vec![Some(t)]);
        assert!(r.is_ok());
    }
    let points = w.series_points(0);
    assert!(points.len() <= 31);
    assert!(points[0].0 > 5);
    assert_eq!(w.monitor().time(), 35);
    let (lo, hi) = w.monitor().x();
    assert_eq!(hi - lo, 30);
}
