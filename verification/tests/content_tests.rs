use mira_sharer::content::{
    excluded_apps, filter_windows, name_before, AppInfo, refresh_available_content, sort_by_app_name, WindowInfo,
};

fn window(id: u64, app: Option<&str>, bundle: &str) -> WindowInfo {
    WindowInfo { window_id: id, app_name: app.map(|a| a.to_string()), bundle_id: bundle.to_string() }
}

fn ids(ws: &[WindowInfo]) -> Vec<u64> {
    ws.iter().map(|w| w.window_id).collect()
}

#[test]
fn names_compare_like_str() {
    assert!(name_before("Finder", "Safari"));
    assert!(!name_before("Safari", "Finder"));
    assert!(name_before("Mail", "Mailbox"));
    assert!(!name_before("Mail", "Mail"));
    assert!(name_before("", "a"));
    assert!(name_before("Zoom", "app"));
    assert!(name_before("é", "😀"));
    assert_eq!(name_before("Écran", "Ecran"), "Écran" < "Ecran");
}

#[test]
fn windows_are_sorted_by_application_name() {
    let ws = vec![
        window(1, Some("Safari"), "com.apple.Safari"),
        window(2, Some("Finder"), "com.apple.finder"),
        window(3, Some("Mail"), "com.apple.mail"),
    ];
    assert_eq!(ids(&filter_windows(ws, &None)), vec![2, 3, 1]);
}

#[test]
fn windows_of_one_application_keep_their_order() {
    let ws = vec![
        window(1, Some("Safari"), "s"),
        window(2, Some("Finder"), "f"),
        window(3, Some("Safari"), "s"),
        window(4, Some("Finder"), "f"),
    ];
    assert_eq!(ids(&sort_by_app_name(ws)), vec![2, 4, 1, 3]);
}

#[test]
fn windows_without_a_named_application_are_left_out() {
    let ws = vec![
        window(1, None, ""),
        window(2, Some(""), "x"),
        window(3, Some("Notes"), "com.apple.Notes"),
    ];
    assert_eq!(ids(&filter_windows(ws, &None)), vec![3]);
}

#[test]
fn own_windows_are_left_out() {
    let ws = vec![
        window(1, Some("Mira Sharer"), "app.mirashare.sharer"),
        window(2, Some("Terminal"), "com.apple.Terminal"),
    ];
    let own = Some("app.mirashare.sharer".to_string());
    assert_eq!(ids(&filter_windows(ws, &own)), vec![2]);
}

#[test]
fn empty_list_stays_empty() {
    assert!(filter_windows(Vec::new(), &None).is_empty());
}

#[test]
fn refresh_keeps_listed_choices() {
    let ws = vec![window(5, Some("Safari"), "s"), window(6, Some("Finder"), "f")];
    let c = refresh_available_content(
        vec![1, 2],
        ws,
        vec![app(8, "com.apple.Safari"), app(9, "com.apple.finder")],
        &None,
        Some(2),
        Some(5),
    );
    let app_ids: Vec<u64> = c.apps.iter().map(|a| a.app_id).collect();
    assert_eq!(app_ids, vec![8, 9]);
    assert_eq!(c.displays, vec![1, 2]);
    assert_eq!(ids(&c.windows), vec![6, 5]);
    assert_eq!(c.selected_display, Some(2));
    assert_eq!(c.selected_window, Some(5));
}

#[test]
fn refresh_falls_back_to_the_first_listed() {
    let ws = vec![window(5, Some("Safari"), "s"), window(6, Some("Finder"), "f"), window(7, None, "")];
    let c = refresh_available_content(vec![3, 4], ws, Vec::new(), &None, Some(9), Some(7));
    assert_eq!(c.selected_display, Some(3));
    assert_eq!(c.selected_window, Some(6));
    let c = refresh_available_content(Vec::new(), Vec::new(), Vec::new(), &None, None, None);
    assert_eq!((c.selected_display, c.selected_window), (None, None));
}

fn app(id: u64, bundle: &str) -> AppInfo {
    AppInfo { app_id: id, bundle_id: bundle.to_string() }
}

#[test]
fn only_this_application_is_excluded() {
    let apps = vec![app(1, "com.apple.finder"), app(2, "app.mira"), app(3, "app.mira")];
    let own = Some("app.mira".to_string());
    let ex: Vec<u64> = excluded_apps(apps, &own, true).iter().map(|a| a.app_id).collect();
    assert_eq!(ex, vec![2, 3]);
    assert!(excluded_apps(vec![app(2, "app.mira")], &own, false).is_empty());
    assert!(excluded_apps(vec![app(2, "app.mira")], &None, true).is_empty());
}
