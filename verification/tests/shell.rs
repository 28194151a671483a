use prism_client::cards::CardGrid;
use prism_client::dropdown::DropdownHit;
use prism_client::server_form::FormHits;
use prism_client::launcher::{ActiveModal, CardFilter, FormMode, GridMode, LauncherTab, SettingsSection};
use prism_client::servers::SavedServer;
use prism_client::shell::LauncherShell;
use prism_client::ui_state::UiState;
use prism_client::widgets::{EventResponse, KeyCode, MouseButton, UiAction};

fn shell() -> LauncherShell {
    LauncherShell::new(CardGrid::new())
}

#[test]
fn shell_starts_on_home() {
    let s = shell();
    assert_eq!(s.active_tab(), LauncherTab::Home);
    assert!(!s.has_modal());
    assert_eq!(s.focused(), None);
    assert_eq!(s.ui_state(), UiState::Launcher);
    assert_eq!(s.active_section(), SettingsSection::IdentitySecurity);
}

#[test]
fn saved_tab_configures_grid_and_home_resets_filter() {
    let mut s = shell();
    s.set_tab(LauncherTab::SavedConnections);
    assert_eq!(s.active_tab(), LauncherTab::SavedConnections);
    // Filter chips are shown on the saved-hosts tab: pick one.
    let mut grid = CardGrid::new();
    grid.set_show_filters(true);
    grid.press(MouseButton::Left, false, Some(CardFilter::Recent), false, None, 0);
    let mut s = LauncherShell::new(grid);
    s.set_tab(LauncherTab::Profiles);
    assert_eq!(s.grid().active_filter(), CardFilter::Recent);
    s.set_tab(LauncherTab::Home);
    assert_eq!(s.grid().active_filter(), CardFilter::All);

    let mut grid = CardGrid::new();
    grid.set_layout_mode(GridMode::Rows);
    grid.set_visible_limit(Some(3));
    let mut s = LauncherShell::new(grid);
    s.set_tab(LauncherTab::SavedConnections);
    let mut servers = vec![SavedServer::with_identity(1, 10, "A", "a:1")];
    servers.push(SavedServer::with_identity(2, 20, "B", "b:1"));
    s.set_servers(&servers);
    assert_eq!(s.grid().visible_card_count(100), 2);
    assert_eq!(s.grid().cards()[0].display_name(), "B");
}

#[test]
fn tab_keys_cycle_focus() {
    let mut s = shell();
    assert!(matches!(s.key_down(KeyCode::Tab, 3), Some(EventResponse::Consumed)));
    assert_eq!(s.focused(), Some(0));
    s.key_down(KeyCode::Tab, 3);
    s.key_down(KeyCode::Tab, 3);
    assert_eq!(s.focused(), Some(2));
    s.key_down(KeyCode::Tab, 3);
    assert_eq!(s.focused(), Some(0));
    s.key_down(KeyCode::ShiftTab, 3);
    assert_eq!(s.focused(), Some(2));
    assert!(matches!(s.key_down(KeyCode::Escape, 3), Some(EventResponse::Consumed)));
    assert_eq!(s.focused(), None);
    s.key_down(KeyCode::ShiftTab, 3);
    assert_eq!(s.focused(), Some(2));
    // Other keys go on to the tab.
    assert!(s.key_down(KeyCode::Enter, 3).is_none());
    assert_eq!(s.focused(), Some(2));
    // Nothing to focus: the key is consumed, the focus stays.
    s.key_down(KeyCode::Tab, 0);
    assert_eq!(s.focused(), Some(2));
    s.pointer_down();
    assert_eq!(s.focused(), None);
    s.key_down(KeyCode::Tab, 3);
    s.set_tab(LauncherTab::Profiles);
    assert_eq!(s.focused(), None);
}

fn no_form_hit() -> FormHits {
    FormHits {
        on_cancel: false,
        on_save: false,
        in_name: false,
        in_address: false,
        in_key: false,
        profile: DropdownHit { on_header: false, item: None },
    }
}

#[test]
fn modal_routes_keys_to_form_and_click_outside_closes() {
    let mut s = shell();
    s.show_modal(ActiveModal::ServerForm { mode: FormMode::Add });
    assert!(s.server_form().is_visible());
    assert_eq!(s.server_form().title(), "Add Server");
    // Tab does not move the launcher focus while a modal is open.
    assert!(matches!(s.key_down(KeyCode::Tab, 3), Some(EventResponse::Ignored)));
    assert_eq!(s.focused(), None);
    // Focus the name field and type into it.
    let hits = FormHits { in_name: true, ..no_form_hit() };
    assert!(matches!(s.modal_click(hits, false, false, true), EventResponse::Consumed));
    for ch in "Box".chars() {
        assert!(matches!(s.type_char(ch), Some(EventResponse::Consumed)));
    }
    assert!(matches!(s.key_down(KeyCode::Backspace, 3), Some(EventResponse::Consumed)));
    let hits = FormHits { in_address: true, ..no_form_hit() };
    s.modal_click(hits, false, false, true);
    for ch in "h:1".chars() {
        s.type_char(ch);
    }
    let data = s.server_form_data().expect("form open");
    assert_eq!(data.display_name, "Bo");
    assert_eq!(data.address, "h:1");
    assert_eq!(data.noise_key, None);
    assert_eq!(data.default_profile, "Gaming");
    // Save and Cancel answer with their actions.
    let hits = FormHits { on_save: true, ..no_form_hit() };
    assert!(matches!(s.modal_click(hits, false, false, true), EventResponse::Action(UiAction::SaveServer)));
    let hits = FormHits { on_cancel: true, ..no_form_hit() };
    assert!(matches!(s.modal_click(hits, false, false, true), EventResponse::Action(UiAction::CancelModal)));
    // Inside the panel but on nothing: ignored; outside: the modal closes.
    assert!(matches!(s.modal_click(no_form_hit(), false, false, true), EventResponse::Ignored));
    assert!(s.has_modal());
    assert!(matches!(s.modal_click(no_form_hit(), false, false, false), EventResponse::Consumed));
    assert!(!s.has_modal());
    assert!(!s.server_form().is_visible());
    assert!(s.server_form_data().is_none());
    // Without a modal, typed characters go on to the tab.
    assert!(s.type_char('x').is_none());

    s.show_modal(ActiveModal::ConfirmDelete { server_id: 9, name: "Box".to_string() });
    assert!(!s.server_form().is_visible());
    assert!(matches!(s.active_modal(), Some(ActiveModal::ConfirmDelete { server_id: 9, .. })));
    assert!(matches!(s.modal_click(no_form_hit(), false, true, true), EventResponse::Action(UiAction::ConfirmDeleteServer(9))));
    assert!(matches!(s.modal_click(no_form_hit(), true, false, true), EventResponse::Action(UiAction::CancelModal)));
    s.dismiss_modal();
    assert!(s.active_modal().is_none());
}

#[test]
fn editing_fills_the_form_and_adding_clears_it() {
    let mut s = shell();
    let mut server = SavedServer::with_identity(7, 1, "Desk", "10.0.0.7:7000");
    server.noise_public_key = Some("abcd".to_string());
    server.default_profile = "Coding".to_string();
    s.set_server_form_editing(&server);
    s.show_modal(ActiveModal::ServerForm { mode: FormMode::Edit { server_id: 7 } });
    assert_eq!(s.server_form_editing_id(), Some(7));
    assert_eq!(s.server_form().title(), "Edit Server");
    let data = s.server_form_data().expect("form open");
    assert_eq!(data.display_name, "Desk");
    assert_eq!(data.address, "10.0.0.7:7000");
    assert_eq!(data.noise_key.as_deref(), Some("abcd"));
    assert_eq!(data.default_profile, "Coding");
    s.dismiss_modal();
    s.show_modal(ActiveModal::ServerForm { mode: FormMode::Add });
    assert_eq!(s.server_form_editing_id(), None);
    let data = s.server_form_data().expect("form open");
    assert_eq!(data.display_name, "");
    assert_eq!(data.default_profile, "Gaming");
}

#[test]
fn nav_answers_open_tabs_and_sections() {
    let mut s = shell();
    let out = s.route_nav(EventResponse::Action(UiAction::OpenLauncherTab(LauncherTab::Settings)));
    assert!(matches!(out, Some(EventResponse::Action(UiAction::OpenLauncherTab(LauncherTab::Settings)))));
    assert_eq!(s.active_tab(), LauncherTab::Settings);
    let out = s.route_nav(EventResponse::Action(UiAction::OpenSettingsSection(SettingsSection::Audio)));
    assert!(out.is_some());
    assert_eq!(s.active_section(), SettingsSection::Audio);
    assert!(s.route_nav(EventResponse::Ignored).is_none());
    assert!(matches!(s.route_nav(EventResponse::Consumed), Some(EventResponse::Consumed)));
    s.set_ui_state(UiState::Connecting);
    assert_eq!(s.ui_state(), UiState::Connecting);
}

#[test]
fn adding_after_editing_starts_from_a_blank_gaming_form() {
    let mut s = shell();
    let mut server = SavedServer::with_identity(9, 1, "Desk", "10.0.0.9:7000");
    server.noise_public_key = Some("beef".to_string());
    server.default_profile = "Coding".to_string();
    s.set_server_form_editing(&server);
    s.show_modal(ActiveModal::ServerForm { mode: FormMode::Add });
    assert!(s.has_modal());
    assert_eq!(s.server_form_editing_id(), None);
    let data = s.server_form_data().expect("form open");
    assert_eq!(
        (data.display_name, data.address, data.noise_key, data.default_profile),
        (String::new(), String::new(), None, "Gaming".to_string())
    );
}

#[test]
fn confirm_delete_shows_no_form_data() {
    let mut s = shell();
    s.show_modal(ActiveModal::ConfirmDelete { server_id: 3, name: "Desk".to_string() });
    assert!(s.has_modal());
    assert!(s.server_form_data().is_none());
}
