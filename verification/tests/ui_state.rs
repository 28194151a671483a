use prism_client::config::LaunchMode;
use prism_client::profiles::{balanced_profile, EncoderPreset};
use prism_client::session::ControlCommand;
use prism_client::ui_state::{SessionFlow, UiState};

#[test]
fn initial_state_from_launch_mode() {
    assert_eq!(UiState::initial(LaunchMode::Launcher), UiState::Launcher);
    assert_eq!(
        UiState::initial(LaunchMode::DirectConnect),
        UiState::Connecting
    );
}

#[test]
fn stream_visible_in_correct_states() {
    assert!(!UiState::Launcher.shows_stream());
    assert!(!UiState::Connecting.shows_stream());
    assert!(UiState::Stream.shows_stream());
    assert!(UiState::Overlay.shows_stream());
}

#[test]
fn input_forwarded_only_in_stream() {
    assert!(!UiState::Launcher.forwards_input());
    assert!(!UiState::Connecting.forwards_input());
    assert!(UiState::Stream.forwards_input());
    assert!(!UiState::Overlay.forwards_input());
}

#[test]
fn launcher_and_overlay_visibility() {
    assert!(UiState::Launcher.shows_launcher());
    assert!(UiState::Connecting.shows_launcher());
    assert!(!UiState::Stream.shows_launcher());
    assert!(!UiState::Overlay.shows_launcher());
    assert!(UiState::Overlay.shows_overlay());
    assert!(!UiState::Stream.shows_overlay());
}

fn streaming_flow() -> SessionFlow {
    let mut flow = SessionFlow::new(LaunchMode::Launcher, 300);
    flow.begin_connect(None, true);
    let cmds = flow.connected();
    assert!(cmds.is_empty());
    flow
}

#[test]
fn double_tap_opens_and_closes_overlay() {
    let mut flow = streaming_flow();
    assert_eq!(flow.ui_state(), UiState::Stream);
    assert!(!flow.control_key(true, 1_000));
    assert!(!flow.control_key(false, 1_050));
    assert!(flow.control_key(true, 1_100));
    assert_eq!(flow.ui_state(), UiState::Overlay);
    assert!(!flow.control_key(true, 2_000));
    assert!(flow.control_key(true, 2_200));
    assert_eq!(flow.ui_state(), UiState::Stream);
}

#[test]
fn slow_taps_do_not_toggle() {
    let mut flow = streaming_flow();
    assert!(!flow.control_key(true, 1_000));
    assert!(!flow.control_key(true, 1_400));
    assert_eq!(flow.ui_state(), UiState::Stream);
}

#[test]
fn other_key_between_taps_cancels_toggle() {
    let mut flow = streaming_flow();
    flow.control_key(true, 1_000);
    flow.other_key(true);
    assert!(!flow.control_key(true, 1_100));
    assert_eq!(flow.ui_state(), UiState::Stream);
}

#[test]
fn double_tap_in_launcher_changes_nothing() {
    let mut flow = SessionFlow::new(LaunchMode::Launcher, 300);
    flow.control_key(true, 0);
    flow.control_key(true, 50);
    assert_eq!(flow.ui_state(), UiState::Launcher);
}

#[test]
fn connect_then_apply_pending_profile() {
    let mut flow = SessionFlow::new(LaunchMode::Launcher, 300);
    flow.begin_connect(Some(balanced_profile()), true);
    assert_eq!(flow.ui_state(), UiState::Connecting);
    assert!(flow.pending_profile().is_some());
    let cmds = flow.connected();
    assert_eq!(flow.ui_state(), UiState::Stream);
    assert!(flow.pending_profile().is_none());
    assert_eq!(cmds.len(), 3);
    assert!(matches!(&cmds[0], ControlCommand::SwitchProfile(n) if n == "Balanced"));
    match &cmds[1] {
        ControlCommand::UpdateQuality { encoder_preset, max_fps, lossless_text, region_detection } => {
            assert_eq!(encoder_preset.as_deref(), Some("Balanced"));
            assert_eq!(*max_fps, Some(balanced_profile().max_fps));
            assert!(lossless_text.is_none());
            assert!(region_detection.is_none());
        }
        other => panic!("unexpected command {other:?}"),
    }
    assert!(matches!(cmds[2], ControlCommand::SetBandwidthLimit(b) if b == balanced_profile().bitrate_bps));
    assert_eq!(balanced_profile().encoder_preset, EncoderPreset::Balanced);
}

#[test]
fn unparsable_address_keeps_state() {
    let mut flow = SessionFlow::new(LaunchMode::Launcher, 300);
    flow.begin_connect(Some(balanced_profile()), false);
    assert_eq!(flow.ui_state(), UiState::Launcher);
    assert!(flow.pending_profile().is_some());
}

#[test]
fn failed_connection_returns_to_launcher() {
    let mut flow = SessionFlow::new(LaunchMode::DirectConnect, 300);
    assert_eq!(flow.ui_state(), UiState::Connecting);
    flow.begin_connect(Some(balanced_profile()), true);
    flow.connect_failed();
    assert_eq!(flow.ui_state(), UiState::Launcher);
    assert!(flow.pending_profile().is_none());
}

#[test]
fn runtime_failure_returns_to_launcher_keeping_profile() {
    let mut flow = SessionFlow::new(LaunchMode::Launcher, 300);
    flow.begin_connect(Some(balanced_profile()), true);
    flow.connect_not_started();
    assert_eq!(flow.ui_state(), UiState::Launcher);
    assert!(flow.pending_profile().is_some());
}

#[test]
fn disconnect_and_close_overlay() {
    let mut flow = streaming_flow();
    flow.control_key(true, 0);
    flow.control_key(true, 10);
    assert_eq!(flow.ui_state(), UiState::Overlay);
    flow.close_overlay();
    assert_eq!(flow.ui_state(), UiState::Stream);
    flow.disconnect();
    assert_eq!(flow.ui_state(), UiState::Launcher);
    assert!(flow.pending_profile().is_none());
}
