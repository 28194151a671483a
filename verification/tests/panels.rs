use prism_client::dropdown::DropdownHit;
use prism_client::overlay::CapsulePanel;
use prism_client::panels::{ConnPanel, QualityPanel, StatsBar};
use prism_client::text::{decimal_string, parse_u8};
use prism_client::widgets::{EventResponse, UiAction};

fn miss() -> DropdownHit {
    DropdownHit { on_header: false, item: None }
}

fn header() -> DropdownHit {
    DropdownHit { on_header: true, item: None }
}

fn entry(i: usize) -> DropdownHit {
    DropdownHit { on_header: false, item: Some(i) }
}

fn visible_bar(active_profile: &str) -> StatsBar {
    let mut bar = StatsBar::new();
    bar.show();
    bar.update_stats(active_profile);
    bar
}

#[test]
fn stats_bar_navigation_click() {
    let mut bar = visible_bar("Gaming");
    let resp = bar.click(miss(), Some(CapsulePanel::Performance), true);
    match &resp {
        EventResponse::Action(UiAction::OpenPanel(p)) => assert_eq!(p, "performance"),
        other => panic!("expected OpenPanel action, got {other:?}"),
    }
}

#[test]
fn stats_bar_profile_dropdown_emits_switch() {
    let mut bar = visible_bar("Gaming");
    // Open the drop-down, then pick its second entry.
    let resp = bar.click(header(), None, true);
    assert!(matches!(resp, EventResponse::Consumed));
    let resp = bar.click(entry(1), None, true);
    match &resp {
        EventResponse::Action(UiAction::SwitchProfile(p)) => assert_eq!(p, "Coding", "expected SwitchProfile"),
        other => panic!("expected SwitchProfile action, got {other:?}"),
    }
}

#[test]
fn stats_bar_other_buttons_and_background() {
    let mut bar = visible_bar("Gaming");
    for (panel, name) in [
        (CapsulePanel::Quality, "quality"),
        (CapsulePanel::Connection, "connection"),
        (CapsulePanel::Display, "display"),
    ] {
        match bar.click(miss(), Some(panel), true) {
            EventResponse::Action(UiAction::OpenPanel(p)) => assert_eq!(p, name),
            other => panic!("expected OpenPanel, got {other:?}"),
        }
    }
    assert!(matches!(bar.click(miss(), None, true), EventResponse::Consumed));
    assert!(matches!(bar.click(miss(), None, false), EventResponse::Ignored));
}

#[test]
fn stats_bar_open_dropdown_takes_the_click() {
    let mut bar = visible_bar("Gaming");
    bar.click(header(), None, true);
    // A click on a panel button while the list is open only closes it.
    assert!(matches!(bar.click(miss(), Some(CapsulePanel::Quality), true), EventResponse::Consumed));
    assert_eq!(bar.selected_profile(), "Gaming");
    // Choosing the entry already chosen changes nothing and is consumed.
    bar.click(header(), None, true);
    assert!(matches!(bar.click(entry(0), None, true), EventResponse::Consumed));
}

#[test]
fn stats_bar_follows_reported_profile() {
    let mut bar = StatsBar::new();
    assert_eq!(bar.selected_profile(), "Gaming");
    bar.update_stats("Coding");
    assert_eq!(bar.selected_profile(), "Coding");
    // Known profiles without an entry in the drop-down, and unknown ones,
    // leave the choice alone.
    bar.update_stats("Balanced");
    assert_eq!(bar.selected_profile(), "Coding");
    bar.update_stats("Low Bandwidth");
    assert_eq!(bar.selected_profile(), "Coding");
    bar.update_stats("Custom");
    assert_eq!(bar.selected_profile(), "Coding");
    bar.update_stats("Gaming");
    assert_eq!(bar.selected_profile(), "Gaming");
}

#[test]
fn stats_bar_pin_and_visibility() {
    let mut bar = StatsBar::new();
    assert!(!bar.is_visible());
    assert!(!bar.is_pinned());
    bar.toggle_pin();
    assert!(bar.is_pinned());
    bar.toggle_pin();
    assert!(!bar.is_pinned());
    bar.show();
    assert!(bar.is_visible());
    bar.dismiss();
    assert!(!bar.is_visible());
}

#[test]
fn quality_panel_hidden() {
    let mut panel = QualityPanel::new();
    assert!(!panel.is_visible());
    panel.show();
    assert!(panel.is_visible());
    panel.dismiss();
    assert!(!panel.is_visible());
}

fn expect_quality(
    resp: EventResponse,
    preset: Option<&str>,
    max_fps: Option<u8>,
    lossless: Option<bool>,
    region: Option<bool>,
) {
    match resp {
        EventResponse::Action(UiAction::UpdateQuality { preset: p, max_fps: f, lossless_text: l, region_detection: r }) => {
            assert_eq!(p.as_deref(), preset);
            assert_eq!(f, max_fps);
            assert_eq!(l, lossless);
            assert_eq!(r, region);
        }
        other => panic!("expected UpdateQuality, got {other:?}"),
    }
}

#[test]
fn quality_panel_controls_send_updates() {
    let mut panel = QualityPanel::new();
    panel.show();

    assert!(matches!(panel.click(header(), miss(), miss(), false, false), EventResponse::Consumed));
    expect_quality(panel.click(entry(1), miss(), miss(), false, false), Some("Coding"), None, None, None);

    assert!(matches!(panel.click(miss(), header(), miss(), false, false), EventResponse::Consumed));
    expect_quality(panel.click(miss(), entry(2), miss(), false, false), Some("Quality"), None, None, None);

    assert!(matches!(panel.click(miss(), miss(), header(), false, false), EventResponse::Consumed));
    expect_quality(panel.click(miss(), miss(), entry(2), false, false), None, Some(120), None, None);
    panel.click(miss(), miss(), header(), false, false);
    expect_quality(panel.click(miss(), miss(), entry(0), false, false), None, Some(30), None, None);

    expect_quality(panel.click(miss(), miss(), miss(), true, false), None, None, Some(true), None);
    expect_quality(panel.click(miss(), miss(), miss(), true, false), None, None, Some(false), None);
    expect_quality(panel.click(miss(), miss(), miss(), false, true), None, None, None, Some(true));

    assert!(matches!(panel.click(miss(), miss(), miss(), false, false), EventResponse::Ignored));
}

#[test]
fn quality_panel_open_list_closes_first() {
    let mut panel = QualityPanel::new();
    panel.click(miss(), miss(), header(), false, false);
    // With the frame-rate list open, a click on a check box only closes it.
    assert!(matches!(panel.click(miss(), miss(), miss(), true, false), EventResponse::Consumed));
    // The check box was not flipped: the next click on it turns it on.
    expect_quality(panel.click(miss(), miss(), miss(), true, false), None, None, Some(true), None);
    // Picking the entry already chosen is consumed without a request.
    panel.click(miss(), miss(), header(), false, false);
    assert!(matches!(panel.click(miss(), miss(), entry(1), false, false), EventResponse::Consumed));
}

#[test]
fn conn_panel_paints() {
    let mut panel = ConnPanel::new();
    panel.show();
    panel.update("prism.local", "192.168.1.10:7272", true, "00:05:32", "c0ffee");
    let lines = panel.line_texts();
    assert!(lines.iter().any(|t| t.contains("prism.local")), "expected server name, got: {lines:?}");
    assert_eq!(
        lines,
        vec![
            "Server: prism.local".to_string(),
            "Address: 192.168.1.10:7272".to_string(),
            "Encryption: Noise (E2E)".to_string(),
            "Session: 00:05:32".to_string(),
            "Client ID: c0ffee".to_string(),
        ]
    );
    panel.update("a", "b", false, "c", "d");
    assert_eq!(panel.line_texts()[2], "Encryption: None");
}

#[test]
fn conn_panel_starts_with_dashes() {
    let panel = ConnPanel::new();
    assert!(!panel.is_visible());
    assert_eq!(
        panel.line_texts(),
        vec![
            "Server: \u{2014}".to_string(),
            "Address: \u{2014}".to_string(),
            "Encryption: \u{2014}".to_string(),
            "Session: \u{2014}".to_string(),
            "Client ID: \u{2014}".to_string(),
        ]
    );
}

#[test]
fn conn_panel_disconnect() {
    let mut panel = ConnPanel::new();
    panel.show();
    let resp = panel.click(true, true);
    assert!(matches!(resp, EventResponse::Action(UiAction::Disconnect)), "expected Disconnect action, got {resp:?}");
    assert!(matches!(panel.click(false, true), EventResponse::Consumed));
    assert!(matches!(panel.click(false, false), EventResponse::Ignored));
}

#[test]
fn parse_u8_reads_like_std() {
    for s in ["0", "7", "30", "60", "120", "255", "+5", "007", "256", "", "+", "-1", "12a", " 1", "1000", "\u{663}"] {
        assert_eq!(parse_u8(s), s.parse::<u8>().ok(), "input {s:?}");
    }
}

#[test]
fn decimal_text_reads_back() {
    for n in 0..=255u8 {
        assert_eq!(parse_u8(&decimal_string(n as u64)), Some(n));
    }
}
