use pcatk::geometry::{GeometryStore, Size};
use pcatk::guard::{Choice, GuardAction, GuardEvent, ShutdownDecision, WindowState};
use pcatk::workspace::{build_control_bar, register_modes, sample_report, ControlItem, Session};

#[test]
fn build_with_sampling_has_take_sample_button() {
    let s = Session::build(&GeometryStore::new(), true);
    assert_eq!(
        s.control_bar,
        vec![
            ControlItem::ModeLabel,
            ControlItem::ModeSwitcher,
            ControlItem::Spacer,
            ControlItem::ImageViewerButton,
            ControlItem::TakeSampleButton,
        ]
    );
    assert!(s.sampling_available);
}

#[test]
fn build_without_sampling_has_no_take_sample_button() {
    let s = Session::build(&GeometryStore::new(), false);
    assert!(!s.control_bar.contains(&ControlItem::TakeSampleButton));
    assert_eq!(build_control_bar(false).len(), 4);
}

#[test]
fn build_restores_main_window_geometry() {
    let mut st = GeometryStore::new();
    let fresh = Session::build(&st, false);
    assert_eq!(fresh.size, Size { width: 200, height: 200 });
    st.persist_on_change(&"main_window".to_string(), Size { width: 1024, height: 768 });
    let s = Session::build(&st, false);
    assert_eq!(s.size, Size { width: 1024, height: 768 });
    assert_eq!(s.title, "Artists' Colour Mixing TK");
    assert_eq!(s.guard.state, WindowState::Open);
    assert!(s.viewers.is_empty());
}

#[test]
fn modes_are_registered_in_order() {
    let m = register_modes();
    let ids: Vec<&str> = m.iter().map(|r| r.id.as_str()).collect();
    let labels: Vec<&str> = m.iter().map(|r| r.label.as_str()).collect();
    assert_eq!(ids, vec!["palette", "series_paint_editor", "image_viewer"]);
    assert_eq!(labels, vec!["Palette", "Series Paint Editor/Creator", "Image Viewer"]);
    let s = Session::build(&GeometryStore::new(), false);
    assert_eq!(s.active, 0);
}

#[test]
fn switching_modes_keeps_order_and_ids() {
    let mut s = Session::build(&GeometryStore::new(), true);
    let before: Vec<String> = s.modes.iter().map(|r| r.id.clone()).collect();
    assert!(s.select_mode(&"series_paint_editor".to_string()));
    assert_eq!(s.active, 1);
    assert!(s.select_mode(&"image_viewer".to_string()));
    assert_eq!(s.active, 2);
    let after: Vec<String> = s.modes.iter().map(|r| r.id.clone()).collect();
    assert_eq!(before, after);
}

#[test]
fn reselecting_active_mode_is_noop() {
    let mut s = Session::build(&GeometryStore::new(), true);
    assert!(s.select_mode(&"palette".to_string()));
    assert_eq!(s.active, 0);
    assert!(s.select_mode(&"palette".to_string()));
    assert_eq!(s.active, 0);
    assert_eq!(s.control_bar.len(), 5);
}

#[test]
fn selecting_unknown_mode_changes_nothing() {
    let mut s = Session::build(&GeometryStore::new(), false);
    s.select_mode(&"series_paint_editor".to_string());
    assert!(!s.select_mode(&"mixer".to_string()));
    assert_eq!(s.active, 1);
}

#[test]
fn image_viewers_are_independent() {
    let mut st = GeometryStore::new();
    st.persist_on_change(&"image_viewer".to_string(), Size { width: 400, height: 300 });
    let mut s = Session::build(&st, false);
    let a = s.open_image_viewer(&st);
    let b = s.open_image_viewer(&st);
    assert_eq!((a, b), (0, 1));
    assert_eq!(s.viewers[a].size, Size { width: 400, height: 300 });
    assert_eq!(s.viewers[b].size, Size { width: 400, height: 300 });
    assert!(s.viewers[a].reload_requested && s.viewers[b].reload_requested);
    s.close_image_viewer(a);
    assert!(!s.viewers[a].open);
    assert!(s.viewers[b].open);
    assert_eq!(s.viewers[b].size, Size { width: 400, height: 300 });
    assert_eq!(s.size, Size { width: 200, height: 200 });
}

#[test]
fn image_viewer_without_record_uses_default() {
    let st = GeometryStore::new();
    let mut s = Session::build(&st, false);
    let a = s.open_image_viewer(&st);
    assert_eq!(s.viewers[a].size, Size { width: 200, height: 200 });
}

#[test]
fn permission_denied_gives_one_report_and_no_change() {
    let s = Session::build(&GeometryStore::new(), true);
    let before = format!("{:?}", s);
    let r = s.on_sample_result(&Err("permission denied".to_string()));
    let r = r.expect("one report");
    assert_eq!(r.message, "permission denied");
    assert_eq!(r.title, "Failure");
    assert_eq!(format!("{:?}", s), before);
}

#[test]
fn successful_sample_gives_no_report() {
    assert!(sample_report(&Ok(())).is_none());
}

#[test]
fn session_close_events_reach_the_guard() {
    let mut s = Session::build(&GeometryStore::new(), false);
    assert_eq!(
        s.handle_close_event(GuardEvent::CloseRequested { unsaved: true }),
        GuardAction::AskDiscardChanges
    );
    assert_eq!(
        s.handle_close_event(GuardEvent::Answered(Choice::Cancel)),
        GuardAction::Decide(ShutdownDecision::Cancel)
    );
    assert_eq!(s.guard.state, WindowState::Open);
    assert_eq!(s.active, 0);
}
