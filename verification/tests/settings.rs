use prism_client::config::UserPrefs;
use prism_client::dropdown::DropdownHit;
use prism_client::settings::SettingsPanel;
use prism_client::widgets::EventResponse;

fn miss() -> DropdownHit {
    DropdownHit { on_header: false, item: None }
}

fn header() -> DropdownHit {
    DropdownHit { on_header: true, item: None }
}

fn entry(i: usize) -> DropdownHit {
    DropdownHit { on_header: false, item: Some(i) }
}

fn panel() -> SettingsPanel {
    SettingsPanel::new("/home/user/.prism/client_identity.json".to_string(), "0.1.0".to_string())
}

#[test]
fn settings_start_balanced() {
    let p = panel();
    assert_eq!(p.identity_path(), "/home/user/.prism/client_identity.json");
    assert_eq!(p.version(), "0.1.0");
    let prefs = p.prefs();
    assert_eq!(prefs.default_profile, "Balanced");
    assert!(prefs.exclusive_keyboard);
    assert!(!prefs.relative_mouse);
}

#[test]
fn settings_take_preferences() {
    let mut p = panel();
    p.set_user_prefs(&UserPrefs {
        default_profile: "Coding".to_string(),
        exclusive_keyboard: false,
        relative_mouse: true,
    });
    let prefs = p.prefs();
    assert_eq!(prefs.default_profile, "Coding");
    assert!(!prefs.exclusive_keyboard);
    assert!(prefs.relative_mouse);
    // An unknown profile falls back to "Balanced".
    p.set_user_prefs(&UserPrefs {
        default_profile: "Custom".to_string(),
        exclusive_keyboard: true,
        relative_mouse: true,
    });
    assert_eq!(p.prefs().default_profile, "Balanced");
}

#[test]
fn settings_profile_names_keep_choice() {
    let mut p = panel();
    p.set_profile_names(vec!["Work".to_string(), "Balanced".to_string()]);
    assert_eq!(p.default_profile().selected_text(), "Balanced");
    p.set_profile_names(vec!["Work".to_string(), "Play".to_string()]);
    assert_eq!(p.default_profile().selected_text(), "Work");
    p.set_profile_names(Vec::new());
    assert_eq!(p.default_profile().options().len(), 1);
    assert_eq!(p.default_profile().selected_text(), "Balanced");
}

#[test]
fn settings_changes_are_saved_once_attached() {
    let mut p = panel();
    // Without preferences attached, changes are not saved.
    let (resp, save) = p.click(miss(), true, false, miss(), miss());
    assert!(matches!(resp, EventResponse::Consumed));
    assert!(save.is_none());
    assert!(!p.prefs().exclusive_keyboard);

    p.set_user_prefs(&UserPrefs::default());
    let (resp, save) = p.click(miss(), false, true, miss(), miss());
    assert!(matches!(resp, EventResponse::Consumed));
    let saved = save.expect("saved");
    assert!(saved.relative_mouse);
    assert!(saved.exclusive_keyboard);
    assert_eq!(saved.default_profile, "Balanced");

    // Opening the profile list saves nothing; picking another profile does.
    let (resp, save) = p.click(header(), false, false, miss(), miss());
    assert!(matches!(resp, EventResponse::Consumed));
    assert!(save.is_none());
    let (_, save) = p.click(entry(0), false, false, miss(), miss());
    assert_eq!(save.expect("saved").default_profile, "Gaming");

    // The audio and microphone lists take clicks without saving.
    let (resp, save) = p.click(miss(), false, false, header(), miss());
    assert!(matches!(resp, EventResponse::Consumed));
    assert!(save.is_none());
    let (resp, save) = p.click(miss(), false, false, entry(2), miss());
    assert!(matches!(resp, EventResponse::Consumed));
    assert!(save.is_none());
    let (resp, _) = p.click(miss(), false, false, miss(), miss());
    assert!(matches!(resp, EventResponse::Ignored));
}
