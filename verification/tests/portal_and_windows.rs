use pipewire_yolo_client::portal::{
    generate_uuid_v4, node_id_from_streams, portal_outcome, screencast_source_options,
    session_handle_from, PortalOutcome, PortalValue, SessionHandleError,
};
use pipewire_yolo_client::properties::Properties;
use pipewire_yolo_client::wayland::{registry_global_bind_version, ScreenCastState};
use pipewire_yolo_client::windows::{active_window_indices, WindowInfo};
use pipewire_yolo_client::handler_states::UserData;

fn window(title: &str, app_id: &str, category: i32) -> WindowInfo {
    WindowInfo {
        id: "id".to_string(),
        title: title.to_string(),
        app_id: app_id.to_string(),
        category,
        relevance_bits: 1.0f64.to_bits(),
    }
}

#[test]
fn user_windows_have_a_title_and_are_primary_matches() {
    assert!(window("Konsole", "org.kde.konsole", 100).is_user_window());
    assert!(!window("", "org.kde.konsole", 100).is_user_window());
    assert!(!window(" \t\u{3000}", "org.kde.konsole", 100).is_user_window());
    assert!(!window("Konsole", "org.kde.konsole", 30).is_user_window());
    assert!(!window("Bridge", "xwaylandvideobridge", 100).is_user_window());
    assert!(!window("the xwaylandvideobridge window", "other", 100).is_user_window());
    assert!(window("xwaylandvideobridg", "xwaylandvideobridge2", 100).is_user_window());
}

#[test]
fn every_unicode_space_makes_a_title_blank() {
    let spaces = "\u{9}\u{a}\u{b}\u{c}\u{d} \u{85}\u{a0}\u{1680}\u{2000}\u{2005}\u{200a}\u{2028}\u{2029}\u{202f}\u{205f}\u{3000}";
    assert!(!window(spaces, "org.kde.konsole", 100).is_user_window());
    assert!(spaces.chars().all(char::is_whitespace));
    // Neither a zero-width space nor the Mongolian vowel separator is white space.
    assert!(window("\u{200b}", "org.kde.konsole", 100).is_user_window());
    assert!(window("\u{180e}", "org.kde.konsole", 100).is_user_window());
}

#[test]
fn response_codes_give_outcomes() {
    assert_eq!(portal_outcome(0), PortalOutcome::Success);
    assert_eq!(portal_outcome(1), PortalOutcome::Cancelled);
    assert_eq!(portal_outcome(2), PortalOutcome::Other);
    assert_eq!(portal_outcome(7), PortalOutcome::Other);
}

#[test]
fn active_windows_keep_their_order() {
    let ws = vec![
        window("A", "a", 100),
        window("", "b", 100),
        window("C", "c", 100),
        window("D", "d", 99),
        window("E", "e", 100),
    ];
    assert_eq!(active_window_indices(&ws), vec![0, 2, 4]);
    assert!(active_window_indices(&vec![]).is_empty());
}

#[test]
fn session_handle_is_an_object_path() {
    let p = "/org/freedesktop/portal/desktop/session/1_42/abc";
    assert_eq!(session_handle_from(&PortalValue::ObjectPath(p.to_string())), Ok(p.to_string()));
    assert_eq!(session_handle_from(&PortalValue::Str(p.to_string())), Ok(p.to_string()));
    assert_eq!(session_handle_from(&PortalValue::Str("/".to_string())), Ok("/".to_string()));
    assert_eq!(
        session_handle_from(&PortalValue::Str("/a//b".to_string())),
        Err(SessionHandleError::InvalidObjectPath)
    );
    assert_eq!(
        session_handle_from(&PortalValue::Str("/a/b/".to_string())),
        Err(SessionHandleError::InvalidObjectPath)
    );
    assert_eq!(
        session_handle_from(&PortalValue::Str("a/b".to_string())),
        Err(SessionHandleError::InvalidObjectPath)
    );
    assert_eq!(session_handle_from(&PortalValue::U32(3)), Err(SessionHandleError::NotAPath));
}

#[test]
fn node_id_is_the_first_field_of_the_first_stream() {
    let streams = PortalValue::Array(vec![
        PortalValue::Structure(vec![PortalValue::U32(57), PortalValue::Other]),
        PortalValue::Structure(vec![PortalValue::U32(99)]),
    ]);
    assert_eq!(node_id_from_streams(Some(&streams)), Some(57));
    assert_eq!(node_id_from_streams(None), None);
    assert_eq!(node_id_from_streams(Some(&PortalValue::Array(vec![]))), None);
    let wrong = PortalValue::Array(vec![PortalValue::Structure(vec![PortalValue::Str("x".to_string())])]);
    assert_eq!(node_id_from_streams(Some(&wrong)), None);
    assert_eq!(node_id_from_streams(Some(&PortalValue::U32(5))), None);
}

#[test]
fn tokens_are_simple_v4_uuids() {
    let a = generate_uuid_v4();
    let b = generate_uuid_v4();
    assert_eq!(a.len(), 32);
    assert!(a.chars().all(|c| c.is_ascii_digit() || ('a'..='f').contains(&c)));
    assert_eq!(a.as_bytes()[12], b'4');
    assert!(matches!(a.as_bytes()[16], b'8' | b'9' | b'a' | b'b'));
    assert_ne!(a, b);
}

#[test]
fn sources_select_a_window_with_cursor() {
    let o = screencast_source_options();
    assert_eq!(o, vec![("types".to_string(), 2), ("cursor_mode".to_string(), 1), ("persist_mode".to_string(), 2)]);
}

#[test]
fn only_the_screencast_manager_is_bound() {
    assert_eq!(registry_global_bind_version("zkde_screencast_unstable_v1", 3), Some(1));
    assert_eq!(registry_global_bind_version("zkde_screencast_unstable_v1", 0), Some(0));
    assert_eq!(registry_global_bind_version("wl_seat", 7), None);
    let s: ScreenCastState<u8, u16> = ScreenCastState::new();
    assert!(s.screencast_manager.is_none() && s.stream.is_none());
}

#[test]
fn properties_read_back_what_was_written() {
    let mut p = Properties::new();
    p.insert("a".to_string(), "1".to_string());
    p.insert("b".to_string(), "2".to_string());
    p.insert("a".to_string(), "3".to_string());
    assert_eq!(p.len(), 2);
    assert_eq!(p.get("a").unwrap(), "3");
    assert_eq!(p.get("b").unwrap(), "2");
    assert_eq!(p.entries()[0].0, "a");
    let d = UserData::new(5u8);
    assert_eq!(*d.get_info(), 5);
}
