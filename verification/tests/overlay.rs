use prism_client::overlay::{
    resolution_label,
    panel_by_name, panel_icon, panel_label, panel_name, CapsuleHit, CapsulePanel, CapsuleState,
};
use prism_client::widgets::{EventResponse, UiAction};

fn nothing() -> CapsuleHit {
    CapsuleHit { disconnect: false, nav: None, sidebar: false, panel: false, capsule: false, bottom_bar: false }
}

#[test]
fn panel_names_round_trip() {
    for p in [CapsulePanel::Performance, CapsulePanel::Quality, CapsulePanel::Connection, CapsulePanel::Display] {
        assert_eq!(panel_by_name(panel_name(p)), Some(p));
    }
    assert_eq!(panel_by_name("Performance"), None);
    assert_eq!(panel_label(CapsulePanel::Connection), "Connection");
    assert_eq!(panel_icon(CapsulePanel::Performance), '\u{EA0B}');
}

#[test]
fn hidden_capsule_ignores_clicks() {
    let mut c = CapsuleState::new();
    assert!(matches!(c.click(nothing()), EventResponse::Ignored));
}

#[test]
fn click_outside_closes_panel_then_overlay() {
    let mut c = CapsuleState::new();
    c.show();
    c.open_panel_by_name("quality");
    assert_eq!(c.active_panel(), Some(CapsulePanel::Quality));
    assert_eq!(c.selected_panel(), CapsulePanel::Quality);
    assert!(matches!(c.click(nothing()), EventResponse::Consumed));
    assert_eq!(c.active_panel(), None);
    assert_eq!(c.selected_panel(), CapsulePanel::Performance);
    assert!(matches!(c.click(nothing()), EventResponse::Action(UiAction::CloseOverlay)));
}

#[test]
fn disconnect_and_navigation() {
    let mut c = CapsuleState::new();
    c.show();
    let mut hit = nothing();
    hit.disconnect = true;
    assert!(matches!(c.click(hit), EventResponse::Action(UiAction::Disconnect)));
    let mut hit = nothing();
    hit.nav = Some(CapsulePanel::Display);
    hit.sidebar = true;
    assert!(matches!(c.click(hit), EventResponse::Consumed));
    assert_eq!(c.active_panel(), Some(CapsulePanel::Display));
    let mut hit = nothing();
    hit.panel = true;
    assert!(matches!(c.click(hit), EventResponse::Ignored));
    assert_eq!(c.active_panel(), Some(CapsulePanel::Display));
}

#[test]
fn dismiss_closes_panel() {
    let mut c = CapsuleState::new();
    c.show();
    c.set_active_panel(Some(CapsulePanel::Performance));
    c.dismiss();
    assert!(!c.visible());
    assert_eq!(c.active_panel(), None);
    c.open_panel_by_name("nonsense");
    assert_eq!(c.active_panel(), None);
}

#[test]
fn resolution_label_from_stream_width() {
    assert_eq!(resolution_label(3840), "4K");
    assert_eq!(resolution_label(7680), "4K");
    assert_eq!(resolution_label(3839), "1440P");
    assert_eq!(resolution_label(2560), "1440P");
    assert_eq!(resolution_label(2559), "1080P");
    assert_eq!(resolution_label(1920), "1080P");
    assert_eq!(resolution_label(0), "1080P");
}
