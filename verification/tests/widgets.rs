use prism_client::config::UserPrefs;
use prism_client::dropdown::{
    prefs_from_controls, profile_dropdown_for_names, select_preferred_profile, Dropdown,
};
use prism_client::switches::{Checkbox, SegmentedControl, Toggle};
use prism_client::widgets::EventResponse;

fn make_dropdown() -> Dropdown {
    Dropdown::new(vec!["Option A".into(), "Option B".into(), "Option C".into()], 0)
}

#[test]
fn default_selection() {
    let dd = make_dropdown();
    assert_eq!(dd.selected_index(), 0);
    assert_eq!(dd.selected_text(), "Option A");
}

#[test]
fn click_opens_and_closes() {
    let mut dd = make_dropdown();
    dd.click(true, None);
    assert!(dd.is_open(), "dropdown should be open after click");
    dd.click(true, None);
    assert!(!dd.is_open(), "dropdown should be closed after second click");
}

#[test]
fn select_option() {
    let mut dd = make_dropdown();
    dd.click(true, None);
    assert!(dd.is_open());
    dd.click(false, Some(1));
    assert_eq!(dd.selected_index(), 1, "expected Option B selected");
    assert!(!dd.is_open(), "dropdown should close after selection");
}

#[test]
fn dropdown_outside_clicks() {
    let mut dd = make_dropdown();
    assert!(matches!(dd.click(false, None), EventResponse::Ignored));
    dd.click(true, None);
    assert!(matches!(dd.click(false, None), EventResponse::Consumed));
    assert!(!dd.is_open());
    assert_eq!(dd.selected_index(), 0);
}

#[test]
fn dropdown_selection_by_index_and_text() {
    let mut dd = make_dropdown();
    dd.set_selected(7);
    assert_eq!(dd.selected_index(), 0);
    assert!(dd.set_selected_by_text("Option C"));
    assert_eq!(dd.selected_index(), 2);
    assert!(!dd.set_selected_by_text("Option Z"));
    assert_eq!(dd.selected_text(), "Option C");
    let empty = Dropdown::new(Vec::new(), 3);
    assert_eq!(empty.selected_text(), "");
}

#[test]
fn settings_profile_choices_follow_names() {
    let current = Dropdown::new(
        vec!["Gaming".into(), "Coding".into(), "Balanced".into(), "Low Bandwidth".into()],
        1,
    );
    let d = profile_dropdown_for_names(vec!["Balanced".into(), "Coding".into()], &current);
    assert_eq!(d.selected_text(), "Coding");
    let d = profile_dropdown_for_names(vec!["Gaming".into(), "Balanced".into()], &current);
    assert_eq!(d.selected_index(), 1);
    let d = profile_dropdown_for_names(vec!["X".into(), "Y".into()], &current);
    assert_eq!(d.selected_index(), 0);
    let d = profile_dropdown_for_names(Vec::new(), &current);
    assert_eq!(d.options(), &["Balanced".to_string()]);
    assert_eq!(d.selected_index(), 0);
}

#[test]
fn settings_prefs_round_trip() {
    let mut d = Dropdown::new(vec!["Gaming".into(), "Balanced".into()], 0);
    let prefs = UserPrefs { default_profile: "Nope".into(), exclusive_keyboard: false, relative_mouse: true };
    select_preferred_profile(&mut d, &prefs);
    assert_eq!(d.selected_text(), "Balanced");
    let prefs = UserPrefs { default_profile: "Gaming".into(), exclusive_keyboard: false, relative_mouse: true };
    select_preferred_profile(&mut d, &prefs);
    let back = prefs_from_controls(&d, false, true);
    assert_eq!(back.default_profile, "Gaming");
    assert!(!back.exclusive_keyboard);
    assert!(back.relative_mouse);
}

#[test]
fn toggle_starts_off() {
    let t = Toggle::new(false);
    assert!(!t.is_on());
}

#[test]
fn toggle_starts_on() {
    let t = Toggle::new(true);
    assert!(t.is_on());
}

#[test]
fn click_toggles_state() {
    let mut t = Toggle::new(false);
    let resp = t.click(true);
    assert!(matches!(resp, EventResponse::Consumed));
    assert!(t.is_on());
}

#[test]
fn click_outside_ignored() {
    let mut t = Toggle::new(false);
    let resp = t.click(false);
    assert!(matches!(resp, EventResponse::Ignored));
    assert!(!t.is_on());
}

#[test]
fn double_click_returns_to_off() {
    let mut t = Toggle::new(false);
    t.click(true);
    assert!(t.is_on());
    t.click(true);
    assert!(!t.is_on());
}

#[test]
fn set_on_programmatic() {
    let mut t = Toggle::new(false);
    t.set_on(true);
    assert!(t.is_on());
    t.set_on(false);
    assert!(!t.is_on());
}

#[test]
fn checkbox_toggles_on_click() {
    let mut cb = Checkbox::new("Enable", false);
    let resp1 = cb.click(true);
    assert!(matches!(resp1, EventResponse::Consumed));
    assert!(cb.is_checked(), "should be checked after first click");
    let resp2 = cb.click(true);
    assert!(matches!(resp2, EventResponse::Consumed));
    assert!(!cb.is_checked(), "should be unchecked after second click");
    assert_eq!(cb.label(), "Enable");
}

#[test]
fn checkbox_click_outside_ignored() {
    let mut cb = Checkbox::new("Enable", false);
    let resp = cb.click(false);
    assert!(matches!(resp, EventResponse::Ignored));
    assert!(!cb.is_checked());
}

#[test]
fn click_changes_selection() {
    let mut seg = SegmentedControl::new(vec!["A".into(), "B".into()], 0);
    let resp = seg.click(Some(1));
    assert!(matches!(resp, EventResponse::Consumed));
    assert_eq!(seg.selected_index(), 1);
    assert!(matches!(seg.click(Some(1)), EventResponse::Ignored));
    assert!(matches!(seg.click(None), EventResponse::Ignored));
    seg.hover(Some(0));
    assert_eq!(seg.hovered_index(), Some(0));
}

#[test]
fn checkbox_set_checked() {
    let mut cb = Checkbox::new("Region detection", true);
    cb.set_checked(false);
    assert!(!cb.is_checked());
}
