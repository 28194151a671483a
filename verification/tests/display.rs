use prism_client::display::{
    layout_bounds, monitor_label, monitor_options, resolution_text, DisplayPanel, MonitorMap,
};
use prism_client::launcher::{nav_click, LauncherTab, SettingsSection};
use prism_client::overlay::{stats_bar_click, CapsulePanel, CapsuleState};
use prism_client::widgets::{EventResponse, MonitorInfo, UiAction};

fn mon(index: u8, x: i32, y: i32, width: u32, height: u32, is_primary: bool) -> MonitorInfo {
    MonitorInfo { index, x, y, width, height, is_primary }
}

fn two_monitors() -> Vec<MonitorInfo> {
    vec![mon(0, 0, 0, 1920, 1080, true), mon(1, 1920, 0, 2560, 1440, false)]
}

#[test]
fn monitor_labels_and_resolution() {
    assert_eq!(monitor_label(&mon(0, 0, 0, 1, 1, true)), "0: Primary");
    assert_eq!(monitor_label(&mon(12, 0, 0, 1, 1, false)), "12: Monitor");
    assert_eq!(monitor_options(&two_monitors()), vec!["0: Primary", "1: Monitor"]);
    assert_eq!(resolution_text(2560, 1440), "2560\u{d7}1440");
}

#[test]
fn layout_bounds_cover_all_monitors() {
    assert_eq!(layout_bounds(&[]), (0, 0, 1, 1));
    assert_eq!(layout_bounds(&two_monitors()), (0, 0, 4480, 1440));
    let left = vec![mon(0, 0, 0, 100, 100, true), mon(1, -50, 20, 40, 200, false)];
    assert_eq!(layout_bounds(&left), (-50, 0, 100, 220));
}

#[test]
fn click_selects_monitor() {
    let mut map = MonitorMap::new(two_monitors(), 0);
    assert!(matches!(map.click(Some(1)), EventResponse::Consumed));
    assert_eq!(map.selected(), 1);
    assert!(matches!(map.click(None), EventResponse::Ignored));
    assert_eq!(map.selected(), 1);
}

#[test]
fn display_panel_tracks_monitors() {
    let mut panel = DisplayPanel::new();
    assert!(!panel.visible());
    assert_eq!(panel.monitor_dropdown().selected_text(), "0: Primary");
    assert_eq!(panel.resolution(), "Resolution: \u{2014}");
    panel.set_monitors(two_monitors());
    assert_eq!(panel.monitor_dropdown().options().len(), 2);
    assert_eq!(panel.resolution(), "1920\u{d7}1080");
    panel.show();
    assert!(panel.visible());
    match panel.click(Some(1), false, None) {
        EventResponse::Action(UiAction::SelectMonitor(1)) => {}
        other => panic!("unexpected {other:?}"),
    }
    assert!(matches!(panel.click(Some(1), false, None), EventResponse::Consumed));
    assert!(matches!(panel.click(None, true, None), EventResponse::Consumed));
    match panel.click(None, false, Some(1)) {
        EventResponse::Action(UiAction::SelectMonitor(1)) => {}
        other => panic!("unexpected {other:?}"),
    }
    panel.set_monitors(vec![mon(3, 0, 0, 800, 600, true)]);
    assert_eq!(panel.monitor_dropdown().selected_index(), 0);
    assert_eq!(panel.resolution(), "800\u{d7}600");
    panel.dismiss();
    assert!(!panel.visible());
}

#[test]
fn navigation_clicks() {
    assert!(matches!(
        nav_click(Some(SettingsSection::Audio), Some(LauncherTab::Home), true),
        EventResponse::Action(UiAction::OpenSettingsSection(SettingsSection::Audio))
    ));
    assert!(matches!(
        nav_click(None, Some(LauncherTab::Profiles), true),
        EventResponse::Action(UiAction::OpenLauncherTab(LauncherTab::Profiles))
    ));
    assert!(matches!(
        nav_click(None, None, true),
        EventResponse::Action(UiAction::OpenLauncherTab(LauncherTab::Settings))
    ));
    assert!(matches!(nav_click(None, None, false), EventResponse::Ignored));
}

#[test]
fn stats_bar_buttons_open_capsule_panels() {
    let mut capsule = CapsuleState::new();
    capsule.show();
    let r = stats_bar_click(Some(CapsulePanel::Connection), true);
    assert!(matches!(capsule.route_stats_bar(r), Some(EventResponse::Consumed)));
    assert_eq!(capsule.active_panel(), Some(CapsulePanel::Connection));
    assert!(matches!(stats_bar_click(None, true), EventResponse::Consumed));
    assert!(capsule.route_stats_bar(stats_bar_click(None, false)).is_none());
    assert!(matches!(
        capsule.route_stats_bar(EventResponse::Action(UiAction::Disconnect)),
        Some(EventResponse::Action(UiAction::Disconnect))
    ));
}
