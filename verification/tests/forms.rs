use prism_client::actions::{
    connect_target, control_command_for, modal_for, quick_connect_enter, tab_after, ModalLayer,
};
use prism_client::launcher::{
    focus_after_shift_tab, focus_after_tab, split_focus, ActiveModal, FormMode, LauncherTab,
};
use prism_client::profile_editor::{controls_for, ProfileControls, ProfileEditor};
use prism_client::profiles::{EncoderPreset, ProfileLogEntry, ProfileStore};
use prism_client::server_form::{
    editing_profile_index, form_data, save_server_form, FormError, ServerForm, ServerFormData,
};
use prism_client::servers::{SavedServer, ServerLogEntry, ServerStore};
use prism_client::session::ControlCommand;
use prism_client::text_input::TextInput;
use prism_client::widgets::{EventResponse, UiAction};

fn data(name: &str, address: &str) -> ServerFormData {
    ServerFormData {
        display_name: name.to_string(),
        address: address.to_string(),
        noise_key: None,
        default_profile: "Gaming".to_string(),
    }
}

#[test]
fn form_data_from_fields() {
    let d = form_data("Rig", "10.0.0.1:7000", "", 1);
    assert_eq!(d.display_name, "Rig");
    assert!(d.noise_key.is_none());
    assert_eq!(d.default_profile, "Coding");
    let d = form_data("Rig", "h", "abcd", 0);
    assert_eq!(d.noise_key.as_deref(), Some("abcd"));
    assert_eq!(d.default_profile, "Gaming");
}

#[test]
fn editing_profile_choice() {
    assert_eq!(editing_profile_index("Gaming", 1), 0);
    assert_eq!(editing_profile_index("Coding", 0), 1);
    assert_eq!(editing_profile_index("default", 1), 1);
}

#[test]
fn blank_name_or_address_is_refused() {
    let mut store = ServerStore::new();
    assert_eq!(
        save_server_form(&mut store, None, data("   ", "10.0.0.1")).err(),
        Some(FormError::MissingNameOrAddress)
    );
    assert_eq!(
        save_server_form(&mut store, None, data("Rig", "\t")).err(),
        Some(FormError::MissingNameOrAddress)
    );
    assert!(store.servers().is_empty());
}

#[test]
fn new_submission_is_added_trimmed() {
    let mut store = ServerStore::new();
    let mut d = data("  Rig ", " 10.0.0.1:7000 ");
    d.noise_key = Some("ab".to_string());
    let entry = save_server_form(&mut store, None, d).unwrap().unwrap();
    assert!(matches!(entry, ServerLogEntry::Add { .. }));
    let s = &store.servers()[0];
    assert_eq!(s.display_name, "Rig");
    assert_eq!(s.address, "10.0.0.1:7000");
    assert_eq!(s.noise_public_key.as_deref(), Some("ab"));
    assert_eq!(s.default_profile, "Gaming");
}

#[test]
fn edit_submission_updates_in_place() {
    let mut store = ServerStore::from_snapshot(vec![SavedServer::with_identity(5, 9, "Old", "a:1")]);
    let entry = save_server_form(&mut store, Some(5), data("New", "b:2")).unwrap();
    assert!(matches!(entry, Some(ServerLogEntry::Update { .. })));
    let s = &store.servers()[0];
    assert_eq!((s.id, s.created_at), (5, 9));
    assert_eq!(s.display_name, "New");
    assert_eq!(s.address, "b:2");
    assert_eq!(save_server_form(&mut store, Some(6), data("X", "y")).unwrap().is_none(), true);
    assert_eq!(store.servers().len(), 1);
}

#[test]
fn editor_starts_on_first_builtin() {
    let e = ProfileEditor::new();
    assert_eq!(e.profiles().len(), 4);
    assert_eq!(e.selected_index(), 0);
    assert_eq!(e.draft().unwrap().name, "Gaming");
    assert!(!e.dirty());
    assert_eq!(e.controls().fps_index, 4);
    assert_eq!(e.controls().encoder_index, 0);
}

#[test]
fn editing_controls_marks_dirty_and_save_stores() {
    let mut store = ProfileStore::from_loaded(None, Vec::new());
    let mut e = ProfileEditor::new();
    e.reload(Some(&store));
    e.select(1);
    assert_eq!(e.draft().unwrap().name, "Coding");
    let same: ProfileControls = controls_for(e.draft().unwrap());
    e.apply_controls(same, 30);
    assert!(!e.dirty(), "writing back the same settings is no change");
    let mut changed = same;
    changed.fps_index = 0;
    changed.encoder_index = 1;
    e.apply_controls(changed, 12);
    assert!(e.dirty());
    assert_eq!(e.draft().unwrap().max_fps, 30);
    assert_eq!(e.draft().unwrap().bitrate_bps, 12_000_000);
    assert_eq!(e.draft().unwrap().encoder_preset, EncoderPreset::Balanced);
    let entry = e.save_to_store(&mut store).unwrap();
    assert!(matches!(entry, ProfileLogEntry::Update { .. }));
    assert!(!e.dirty());
    assert_eq!(store.list()[1].max_fps, 30);
    assert_eq!(e.profiles()[1].bitrate_bps, 12_000_000);
}

#[test]
fn discard_reloads_selection() {
    let mut e = ProfileEditor::new();
    let mut c = e.controls();
    c.av1 = !c.av1;
    e.apply_controls(c, 1);
    assert!(e.dirty());
    e.discard();
    assert!(!e.dirty());
    assert_eq!(e.draft().unwrap().bitrate_bps, 45_000_000);
}

#[test]
fn reload_from_empty_store_list_keeps_builtins() {
    let mut e = ProfileEditor::new();
    e.select(3);
    let store = ProfileStore::from_loaded(Some(Vec::new()), Vec::new());
    e.reload(Some(&store));
    assert_eq!(e.profiles().len(), 4);
    assert_eq!(e.selected_index(), 3);
    e.save_without_store();
    assert_eq!(e.draft().unwrap().name, "Low Bandwidth");
}

#[test]
fn control_commands_for_session_actions() {
    assert!(matches!(
        control_command_for(&UiAction::SwitchProfile("Gaming".into())),
        Some(ControlCommand::SwitchProfile(ref n)) if n == "Gaming"
    ));
    assert!(matches!(
        control_command_for(&UiAction::SetBandwidthLimit(5)),
        Some(ControlCommand::SetBandwidthLimit(5))
    ));
    assert!(matches!(
        control_command_for(&UiAction::SelectMonitor(2)),
        Some(ControlCommand::SelectMonitor(2))
    ));
    match control_command_for(&UiAction::UpdateQuality {
        preset: Some("Quality".into()),
        max_fps: Some(60),
        lossless_text: Some(true),
        region_detection: None,
    }) {
        Some(ControlCommand::UpdateQuality { encoder_preset, max_fps, lossless_text, region_detection }) => {
            assert_eq!(encoder_preset.as_deref(), Some("Quality"));
            assert_eq!(max_fps, Some(60));
            assert_eq!(lossless_text, Some(true));
            assert!(region_detection.is_none());
        }
        other => panic!("unexpected {other:?}"),
    }
    assert!(control_command_for(&UiAction::Disconnect).is_none());
}

#[test]
fn modals_for_server_actions() {
    let store = ServerStore::from_snapshot(vec![SavedServer::with_identity(3, 0, "Desk", "d:1")]);
    assert!(matches!(
        modal_for(&UiAction::AddServer, &store),
        Some(ActiveModal::ServerForm { mode: FormMode::Add })
    ));
    assert!(matches!(
        modal_for(&UiAction::EditServer(3), &store),
        Some(ActiveModal::ServerForm { mode: FormMode::Edit { server_id: 3 } })
    ));
    match modal_for(&UiAction::DeleteServer(3), &store) {
        Some(ActiveModal::ConfirmDelete { server_id, name }) => {
            assert_eq!(server_id, 3);
            assert_eq!(name, "Desk");
        }
        other => panic!("unexpected {other:?}"),
    }
    assert!(modal_for(&UiAction::EditServer(4), &store).is_none());
    assert!(modal_for(&UiAction::CancelModal, &store).is_none());
}

#[test]
fn modal_layer_clicks() {
    let mut layer = ModalLayer::new();
    assert!(!layer.has_modal());
    assert!(layer.show(ActiveModal::ServerForm { mode: FormMode::Add }));
    assert!(layer.form_active());
    assert!(matches!(layer.click(false, false, true), EventResponse::Ignored));
    assert!(matches!(layer.click(false, false, false), EventResponse::Consumed));
    assert!(!layer.has_modal());
    assert!(!layer.show(ActiveModal::ConfirmDelete { server_id: 8, name: "x".into() }));
    assert!(!layer.form_active());
    assert!(matches!(layer.click(true, false, true), EventResponse::Action(UiAction::CancelModal)));
    assert!(matches!(
        layer.click(false, true, true),
        EventResponse::Action(UiAction::ConfirmDeleteServer(8))
    ));
    layer.dismiss();
    assert!(!layer.has_modal());
}

#[test]
fn tabs_after_actions() {
    let connect = UiAction::Connect { address: "h".into(), noise_key: None };
    assert_eq!(tab_after(&connect, LauncherTab::Profiles), LauncherTab::Home);
    assert_eq!(tab_after(&UiAction::OpenLauncherTab(LauncherTab::Settings), LauncherTab::Home), LauncherTab::Settings);
    assert_eq!(tab_after(&UiAction::AddServer, LauncherTab::Profiles), LauncherTab::Profiles);
    assert_eq!(connect_target(&connect).as_deref(), Some("h"));
    assert_eq!(connect_target(&UiAction::SwitchServer { address: "k".into() }).as_deref(), Some("k"));
    assert!(connect_target(&UiAction::Disconnect).is_none());
}

#[test]
fn quick_connect_enter_needs_focus_and_text() {
    let mut input = TextInput::new("host:port");
    assert!(quick_connect_enter(&input).is_none());
    input.set_focused(true);
    assert!(quick_connect_enter(&input).is_none());
    input.set_text("10.1.1.1");
    match quick_connect_enter(&input) {
        Some(UiAction::Connect { address, noise_key }) => {
            assert_eq!(address, "10.1.1.1");
            assert!(noise_key.is_none());
        }
        other => panic!("unexpected {other:?}"),
    }
}

#[test]
fn keyboard_focus_cycles() {
    assert_eq!(focus_after_tab(None, 3), Some(0));
    assert_eq!(focus_after_tab(Some(2), 3), Some(0));
    assert_eq!(focus_after_tab(Some(0), 3), Some(1));
    assert_eq!(focus_after_tab(Some(1), 0), Some(1));
    assert_eq!(focus_after_shift_tab(None, 3), Some(2));
    assert_eq!(focus_after_shift_tab(Some(0), 3), Some(2));
    assert_eq!(focus_after_shift_tab(Some(2), 3), Some(1));
    assert_eq!(split_focus(Some(1), 2), (Some(1), None));
    assert_eq!(split_focus(Some(3), 2), (None, Some(1)));
    assert_eq!(split_focus(None, 2), (None, None));
}

#[test]
fn editing_form_gives_back_the_server() {
    let mut server = SavedServer::with_identity(42, 5, "Studio", "10.0.0.8:7000");
    server.noise_public_key = Some("00ff".to_string());
    server.default_profile = "Coding".to_string();
    let mut form = ServerForm::new();
    form.set_editing(&server);
    let d = form.form_data();
    assert_eq!(d.display_name, "Studio");
    assert_eq!(d.address, "10.0.0.8:7000");
    assert_eq!(d.noise_key.as_deref(), Some("00ff"));
    assert_eq!(d.default_profile, "Coding");
    assert_eq!(form.editing_id(), Some(42));
}

#[test]
fn quick_connect_enter_triggers() {
    let mut input = TextInput::new("host:port");
    input.set_text("10.0.0.5:7000");
    input.set_focused(true);
    match quick_connect_enter(&input) {
        Some(UiAction::Connect { address, .. }) => assert_eq!(address, "10.0.0.5:7000"),
        other => panic!("expected Connect action, got {other:?}"),
    }
}

#[test]
fn clicking_profile_row_changes_selection() {
    let mut editor = ProfileEditor::new();
    assert_eq!(editor.selected_index(), 0);
    let resp = editor.click_row(1);
    assert!(matches!(resp, EventResponse::Consumed));
    assert_eq!(editor.selected_index(), 1);
}
