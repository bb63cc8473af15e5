use mira_sharer::monitor::{friendly_name, monitor_label, DisplayMode, ModeKind};
use mira_sharer::text::same_text;

fn mode(kind: ModeKind, adapter: u64, name: Option<&str>) -> DisplayMode {
    DisplayMode { kind, adapter_id: adapter, name: name.map(|n| n.to_string()) }
}

fn config() -> Vec<DisplayMode> {
    vec![
        mode(ModeKind::Source, 1, Some("\\\\.\\DISPLAY1")),
        mode(ModeKind::Target, 1, Some("DELL U2720Q")),
        mode(ModeKind::Source, 2, Some("\\\\.\\DISPLAY2")),
        mode(ModeKind::Target, 2, Some("")),
        mode(ModeKind::Other, 3, Some("\\\\.\\DISPLAY3")),
    ]
}

#[test]
fn a_source_takes_the_name_of_its_adapters_target() {
    assert_eq!(friendly_name(&config(), "\\\\.\\DISPLAY1"), Some("DELL U2720Q".to_string()));
}

#[test]
fn empty_or_missing_names_give_none() {
    assert_eq!(friendly_name(&config(), "\\\\.\\DISPLAY2"), None);
    assert_eq!(friendly_name(&config(), "\\\\.\\DISPLAY3"), None);
    assert_eq!(friendly_name(&config(), "\\\\.\\DISPLAY9"), None);
    assert_eq!(friendly_name(&Vec::new(), "\\\\.\\DISPLAY1"), None);
}

#[test]
fn a_later_source_is_tried_when_an_earlier_one_gives_nothing() {
    let modes = vec![
        mode(ModeKind::Source, 7, Some("D")),
        mode(ModeKind::Source, 8, Some("D")),
        mode(ModeKind::Target, 8, Some("LG")),
        mode(ModeKind::Target, 8, Some("Other")),
    ];
    assert_eq!(friendly_name(&modes, "D"), Some("LG".to_string()));
}

#[test]
fn unreadable_target_name_gives_none() {
    let modes = vec![mode(ModeKind::Target, 1, None), mode(ModeKind::Source, 1, Some("D"))];
    assert_eq!(friendly_name(&modes, "D"), None);
}

#[test]
fn monitor_labels_prefer_the_friendly_name() {
    assert_eq!(
        monitor_label(&config(), "\\\\.\\DISPLAY1".to_string(), -1920, 0, 0, 1080),
        "DELL U2720Q (1920 x 1080)"
    );
    assert_eq!(
        monitor_label(&config(), "\\\\.\\DISPLAY2".to_string(), 0, 0, 2560, 1440),
        "\\\\.\\DISPLAY2 (2560 x 1440)"
    );
}

#[test]
fn texts_compare_by_characters() {
    assert!(same_text("abc", "abc"));
    assert!(!same_text("abc", "abd"));
    assert!(!same_text("ab", "abc"));
    assert!(same_text("", ""));
}
