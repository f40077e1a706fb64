use rsys_cli::settings::GraphSettings;

#[test]
fn default_settings_are_empty() {
    let s = GraphSettings::default();
    assert_eq!(s.title, "");
    assert_eq!(s.x_title, "");
    assert_eq!(s.y_title, "");
    assert!(s.x_labels.is_empty());
    assert!(s.y_labels.is_empty());
}

#[test]
fn builders_set_each_field() {
    let s = GraphSettings::new()
        .title(String::from("CPU Frequencies"))
        .x_title(String::from("Time"))
        .y_title(String::from("Core Frequency"))
        .x_labels(vec![String::from("0"), String::from("30")])
        .y_labels(vec![String::from("1 GHz"), String::from("4 GHz")]);
    assert_eq!(s.title, "CPU Frequencies");
    assert_eq!(s.x_title, "Time");
    assert_eq!(s.y_title, "Core Frequency");
    assert_eq!(s.x_labels, vec![String::from("0"), String::from("30")]);
    assert_eq!(s.y_labels, vec![String::from("1 GHz"), String::from("4 GHz")]);
}

#[test]
fn builders_keep_other_fields() {
    let s = GraphSettings::new().title(String::from("Memory"));
    assert_eq!(s.title, "Memory");
    assert_eq!(s.x_title, "");
    assert!(s.y_labels.is_empty());
}
