use mira_sharer::capture::{
    display_label, fallback_display_name, frame_interval_ms, frame_status_usable, invite_link, reselect,
    room_password, yuv_plane_lengths, RecorderState, SessionControl, StartAction,
};

#[test]
fn invite_link_carries_room_passcode_and_signaller() {
    let link = invite_link(
        "https://mirashare.app/",
        Some("abc123".to_string()),
        "X7KQ2",
        "wss://ws.mirashare.app",
    );
    assert_eq!(
        link,
        "https://mirashare.app/?room=abc123&pwd=X7KQ2&signaller=wss://ws.mirashare.app"
    );
}

#[test]
fn invite_link_without_room_leaves_it_empty() {
    let link = invite_link("https://v/", None, "P", "wss://s");
    assert_eq!(link, "https://v/?room=&pwd=P&signaller=wss://s");
}

#[test]
fn passcode_is_shown_only_once_set() {
    assert_eq!(room_password(&String::new()), None);
    assert_eq!(room_password(&"K3P9Z".to_string()), Some("K3P9Z".to_string()));
}

#[test]
fn display_labels_show_the_size() {
    assert_eq!(display_label("DELL U2720Q", 3840, 2160), "DELL U2720Q (3840 x 2160)");
    assert_eq!(display_label("", 0, 7), " (0 x 7)");
    assert_eq!(display_label("Left", -1920, 1080), "Left (-1920 x 1080)");
    assert_eq!(
        display_label("M", i64::MIN, i64::MAX),
        "M (-9223372036854775808 x 9223372036854775807)"
    );
}

#[test]
fn unnamed_displays_are_numbered() {
    assert_eq!(fallback_display_name(0), "Display 0");
    assert_eq!(fallback_display_name(12), "Display 12");
    assert_eq!(fallback_display_name(u32::MAX), "Display 4294967295");
}

#[test]
fn reselection_keeps_a_listed_display() {
    assert_eq!(reselect(Some(7), &vec![3, 7, 9]), Some(7));
}

#[test]
fn reselection_falls_back_to_the_first_display() {
    assert_eq!(reselect(Some(5), &vec![3, 7, 9]), Some(3));
    assert_eq!(reselect(None, &vec![4]), Some(4));
    assert_eq!(reselect(Some(5), &vec![]), None);
    assert_eq!(reselect(None, &vec![]), None);
}

#[test]
fn reselecting_twice_changes_nothing() {
    let list = vec![3, 7, 9];
    let once = reselect(Some(5), &list);
    assert_eq!(reselect(once, &list), once);
}

#[test]
fn only_complete_and_idle_frames_are_encoded() {
    assert!(frame_status_usable(0));
    assert!(frame_status_usable(1));
    assert!(!frame_status_usable(2));
    assert!(!frame_status_usable(-1));
    assert!(!frame_status_usable(5));
}

#[test]
fn plane_lengths_of_an_nv12_picture() {
    assert_eq!(yuv_plane_lengths(1920, 1080, 1920, 1920), Some((2_073_600, 1_036_800)));
    assert_eq!(yuv_plane_lengths(0, 1080, 1920, 1920), None);
    assert_eq!(yuv_plane_lengths(1920, 0, 1920, 1920), None);
    assert_eq!(yuv_plane_lengths(3, 3, 4, 5), Some((12, 7)));
}

#[test]
fn recorder_lists_content_on_first_start_only() {
    let mut r = RecorderState::new();
    assert!(r.needs_content_refresh());
    assert_eq!(r.start(), StartAction::Start { refresh_content: true });
    assert!(r.is_running && r.is_setup);
    assert!(!r.needs_content_refresh());
    assert_eq!(r.start(), StartAction::AlreadyRunning);
    assert!(r.stop());
    assert!(!r.is_running);
    assert!(!r.stop());
    assert_eq!(r.start(), StartAction::Start { refresh_content: false });
}

#[test]
fn frame_interval_follows_the_rate_cap() {
    assert_eq!(frame_interval_ms(60), 16);
    assert_eq!(frame_interval_ms(30), 33);
    assert_eq!(frame_interval_ms(1), 1000);
    assert_eq!(frame_interval_ms(2000), 0);
}

#[test]
fn a_session_stops_with_the_token_it_ran_with() {
    let mut s: SessionControl<&str> = SessionControl::new();
    assert!(!s.is_running());
    assert_eq!(s.shutdown(), None);
    s.run("first");
    assert!(s.is_running());
    s.run("second");
    assert_eq!(s.shutdown(), Some("second"));
    assert!(!s.is_running());
    assert_eq!(s.shutdown(), None);
}
