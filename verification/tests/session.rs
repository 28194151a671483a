use prism_client::profiles::{builtin_profiles, EncoderPreset, ProfileConfig, ProfileStore};
use prism_client::servers::{SavedServer, ServerStore};
use prism_client::frame_stream::decode_header;
use prism_client::session::{
    control_message_for, ControlMessage, ControlSequencer,
    encoder_preset_label, normalize_address, profile_default_commands,
    resolve_profile_for_connection, ControlCommand, EncryptionStatus, MonitorInfo, ServerInfo,
    ServerStatus,
};

#[test]
fn address_without_port_gets_default_port() {
    assert_eq!(normalize_address("10.0.0.5"), "10.0.0.5:7000");
    assert_eq!(normalize_address("10.0.0.5:9000"), "10.0.0.5:9000");
    assert_eq!(normalize_address(""), ":7000");
    assert_eq!(normalize_address("[::1]:7000"), "[::1]:7000");
}

fn store_with(servers: Vec<SavedServer>) -> ServerStore {
    ServerStore::from_snapshot(servers)
}

fn server(name: &str, address: &str, profile: &str) -> SavedServer {
    let mut s = SavedServer::with_identity(1, 0, name, address);
    s.default_profile = profile.to_string();
    s
}

fn profiles() -> ProfileStore {
    ProfileStore::from_loaded(None, Vec::new())
}

#[test]
fn saved_server_profile_is_used() {
    let servers = store_with(vec![server("Rig", "10.0.0.5", "Gaming")]);
    let p = resolve_profile_for_connection(Some(&servers), Some(&profiles()), "10.0.0.5", "10.0.0.5:7000")
        .unwrap();
    assert_eq!(p.name, "Gaming");
}

#[test]
fn normalized_address_also_matches() {
    let servers = store_with(vec![server("Rig", "10.0.0.5:7000", "Coding")]);
    let p = resolve_profile_for_connection(Some(&servers), Some(&profiles()), "10.0.0.5", "10.0.0.5:7000")
        .unwrap();
    assert_eq!(p.name, "Coding");
}

#[test]
fn unknown_server_gets_balanced() {
    let servers = store_with(vec![server("Rig", "10.0.0.9", "Gaming")]);
    let p = resolve_profile_for_connection(Some(&servers), Some(&profiles()), "10.0.0.5", "10.0.0.5:7000")
        .unwrap();
    assert_eq!(p.name, "Balanced");
    let p = resolve_profile_for_connection(None, Some(&profiles()), "x", "x:7000").unwrap();
    assert_eq!(p.name, "Balanced");
}

#[test]
fn missing_profile_falls_back_to_balanced_then_first() {
    let servers = store_with(vec![server("Rig", "h", "default")]);
    let p = resolve_profile_for_connection(Some(&servers), Some(&profiles()), "h", "h:7000").unwrap();
    assert_eq!(p.name, "Balanced");

    let mut only: Vec<ProfileConfig> = builtin_profiles();
    only.retain(|p| p.name == "Coding");
    let store = ProfileStore::from_loaded(Some(only), Vec::new());
    let p = resolve_profile_for_connection(Some(&servers), Some(&store), "h", "h:7000").unwrap();
    assert_eq!(p.name, "Coding");
}

#[test]
fn no_profile_store_means_no_profile() {
    assert!(resolve_profile_for_connection(None, None, "h", "h:7000").is_none());
}

#[test]
fn profile_defaults_become_three_commands() {
    let gaming = builtin_profiles().remove(0);
    let cmds = profile_default_commands(&gaming);
    assert_eq!(cmds.len(), 3);
    assert!(matches!(&cmds[0], ControlCommand::SwitchProfile(n) if n == "Gaming"));
    match &cmds[1] {
        ControlCommand::UpdateQuality { encoder_preset, max_fps, lossless_text, region_detection } => {
            assert_eq!(encoder_preset.as_deref(), Some("UltraLowLatency"));
            assert_eq!(*max_fps, Some(120));
            assert!(lossless_text.is_none() && region_detection.is_none());
        }
        other => panic!("unexpected {other:?}"),
    }
    assert!(matches!(cmds[2], ControlCommand::SetBandwidthLimit(45_000_000)));
}

#[test]
fn encoder_preset_labels() {
    assert_eq!(encoder_preset_label(EncoderPreset::UltraLowLatency), "UltraLowLatency");
    assert_eq!(encoder_preset_label(EncoderPreset::Balanced), "Balanced");
    assert_eq!(encoder_preset_label(EncoderPreset::Quality), "Quality");
}

#[test]
fn defaults_of_session_types() {
    let info = ServerInfo::default();
    assert!(info.display_name.is_empty());
    assert_eq!(info.resolution, (0, 0));
    assert_eq!(info.refresh_rate, 0);
    assert!(info.codec.is_empty());
    assert!(!info.encryption);
    assert!(info.monitors.is_empty());
    assert_eq!(EncryptionStatus::default(), EncryptionStatus::Unencrypted);
    assert!(matches!(ServerStatus::default(), ServerStatus::Unknown));
    let m = MonitorInfo::default();
    assert_eq!((m.index, m.width, m.height, m.x, m.y, m.is_primary), (0, 0, 0, 0, 0, false));
}

#[test]
fn server_info_clone_keeps_fields() {
    let mut info = ServerInfo::default();
    info.display_name = "Host".to_string();
    info.monitors.push(MonitorInfo { index: 1, width: 2560, height: 1440, x: -2560, y: 0, is_primary: false });
    let copy = info.clone();
    assert_eq!(copy.display_name, "Host");
    assert_eq!(copy.monitors.len(), 1);
    assert_eq!(copy.monitors[0].x, -2560);
}

#[test]
fn control_messages_for_commands() {
    match control_message_for(ControlCommand::SwitchProfile("Coding".into())) {
        ControlMessage::ProfileSwitch { profile_name, max_fps, encoder_preset, prefer_lossless_text, region_detection } => {
            assert_eq!(profile_name, "Coding");
            assert_eq!(max_fps, 60);
            assert_eq!(encoder_preset, "Balanced");
            assert!(!prefer_lossless_text && !region_detection);
        }
        other => panic!("unexpected {other:?}"),
    }
    match control_message_for(ControlCommand::SetBandwidthLimit(9)) {
        ControlMessage::QualityUpdate { encoder_preset, max_fps, bitrate_bps, lossless_text, region_detection } => {
            assert!(encoder_preset.is_none() && max_fps.is_none());
            assert_eq!(bitrate_bps, Some(9));
            assert!(lossless_text.is_none() && region_detection.is_none());
        }
        other => panic!("unexpected {other:?}"),
    }
    assert!(matches!(
        control_message_for(ControlCommand::SelectMonitor(2)),
        ControlMessage::MonitorLayout { monitor_index: 2 }
    ));
    assert!(matches!(control_message_for(ControlCommand::Disconnect), ControlMessage::Stop));
    assert!(matches!(control_message_for(ControlCommand::RequestServerInfo), ControlMessage::SessionInfo));
}

#[test]
fn control_packets_are_numbered_from_one() {
    let mut seq = ControlSequencer::new();
    let first = seq.packet(0, 0x006, 0x10, b"{}");
    let second = seq.packet(0, 0x006, 0x11, b"");
    let h1 = decode_header(&first).unwrap();
    let h2 = decode_header(&second).unwrap();
    assert_eq!((h1.sequence, h1.msg_type, h1.channel_id, h1.payload_length), (1, 0x10, 0x006, 2));
    assert_eq!(&first[16..], b"{}");
    assert_eq!((h2.sequence, h2.payload_length), (2, 0));
    assert_eq!(second.len(), 16);
}
