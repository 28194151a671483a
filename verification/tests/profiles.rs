use prism_client::profiles::{
    audio_from_index, audio_to_index, encoder_from_index, encoder_to_index, fps_to_index,
    AudioMode, EncoderPreset, ProfileConfig, ProfileLogEntry, ProfileStore, ProfileStoreError,
};

fn temp_store() -> ProfileStore {
    ProfileStore::from_loaded(None, Vec::new())
}

fn reopen(snapshot: Option<Vec<ProfileConfig>>, log: &[ProfileLogEntry]) -> ProfileStore {
    ProfileStore::from_loaded(snapshot, log.to_vec())
}

fn custom(name: &str, bitrate_bps: u64, max_fps: u8) -> ProfileConfig {
    ProfileConfig {
        id: 0,
        name: name.to_string(),
        builtin: false,
        bitrate_bps,
        max_fps,
        encoder_preset: EncoderPreset::Balanced,
        prefer_native_scaling: true,
        audio_mode: AudioMode::Stereo,
        prefer_av1: true,
        exclusive_input: false,
        touch_mode: false,
        auto_reconnect: true,
    }
}

#[test]
fn loads_default_profiles() {
    let store = temp_store();
    assert_eq!(store.list().len(), 4);
    assert_eq!(store.list()[0].name, "Gaming");
    assert_eq!(store.list()[1].name, "Coding");
    assert_eq!(store.list()[2].name, "Balanced");
    assert_eq!(store.list()[3].name, "Low Bandwidth");
}

#[test]
fn get_by_name() {
    let store = temp_store();
    let gaming = store.get_by_name("Gaming").expect("gaming profile exists");
    assert_eq!(gaming.max_fps, 120);
    assert!(store.get_by_name("Nonexistent").is_none());
}

#[test]
fn update_persists() {
    let mut store = temp_store();
    let id = store.list()[0].id;
    let mut updated = store.get(id).expect("profile").clone();
    updated.bitrate_bps = 50_000_000;
    let entry = store.update(id, updated).expect("update");

    let store2 = reopen(None, &[entry]);
    assert_eq!(
        store2.get(id).expect("profile after reopen").bitrate_bps,
        50_000_000
    );
}

#[test]
fn add_custom_profile() {
    let mut store = temp_store();
    let (id, _entry) = store.add(custom("Custom", 20_000_000, 90)).expect("fresh id");
    assert_eq!(store.list().len(), 5);
    assert_eq!(store.get(id).expect("custom by id").name, "Custom");
}

#[test]
fn delete_custom_profile() {
    let mut store = temp_store();
    let (id, _entry) = store.add(custom("Temp", 10_000_000, 30)).expect("fresh id");
    assert_eq!(store.list().len(), 5);
    store.delete(id).expect("delete custom");
    assert_eq!(store.list().len(), 4);
}

#[test]
fn cannot_delete_builtin() {
    let mut store = temp_store();
    let id = store.list()[0].id;
    let result = store.delete(id);
    assert!(result.is_err());
    assert_eq!(result.err(), Some(ProfileStoreError::PermissionDenied));
    assert_eq!(store.list().len(), 4);
}

#[test]
fn compact_and_reload() {
    let mut store = temp_store();
    let id = store.list()[0].id;
    let mut updated = store.get(id).expect("profile").clone();
    updated.bitrate_bps = 42_000_000;
    store.update(id, updated).expect("update");
    let snapshot = store.list().to_vec();

    let store2 = reopen(Some(snapshot), &[]);
    assert_eq!(
        store2.get(id).expect("profile after compact").bitrate_bps,
        42_000_000
    );
}

#[test]
fn unknown_ids_are_not_found() {
    let mut store = temp_store();
    assert_eq!(store.delete(5).err(), Some(ProfileStoreError::NotFound));
    assert_eq!(store.update(5, custom("X", 1, 30)).err(), Some(ProfileStoreError::NotFound));
    assert_eq!(store.list().len(), 4);
}

#[test]
fn update_keeps_builtin_flag_and_id() {
    let mut store = temp_store();
    let id = store.list()[1].id;
    let mut changed = custom("Coding+", 31_000_000, 60);
    changed.id = 99;
    store.update(id, changed).unwrap();
    let p = store.get(id).unwrap();
    assert!(p.builtin);
    assert_eq!(p.id, id);
    assert_eq!(p.name, "Coding+");
}

#[test]
fn add_keeps_a_given_id() {
    let mut store = temp_store();
    let mut p = custom("Fixed", 1, 30);
    p.id = 1234;
    let (id, entry) = store.add(p).expect("fresh id");
    assert_eq!(id, 1234);
    assert!(matches!(entry, ProfileLogEntry::Add { ref profile } if profile.id == 1234));
}

#[test]
fn log_that_empties_the_store_reopens_with_builtins() {
    let store = reopen(Some(Vec::new()), &[]);
    assert_eq!(store.list().len(), 4);
    assert_eq!(store.list()[0].name, "Gaming");
}

#[test]
fn editor_index_mappings() {
    assert_eq!(encoder_to_index(EncoderPreset::UltraLowLatency), 0);
    assert_eq!(encoder_to_index(EncoderPreset::Quality), 2);
    assert_eq!(encoder_from_index(7), EncoderPreset::Balanced);
    assert_eq!(audio_to_index(AudioMode::VoiceOptimized), 1);
    assert_eq!(audio_from_index(9), AudioMode::Stereo);
    assert_eq!(fps_to_index(30), 0);
    assert_eq!(fps_to_index(120), 4);
    assert_eq!(fps_to_index(75), 2);
}

#[test]
fn added_profile_gets_version_seven_id_or_keeps_its_own() {
    let mut store = temp_store();
    let (id, entry) = store.add(custom("Fresh", 5_000_000, 60)).expect("fresh id");
    assert_eq!((id >> 76) & 0xf, 7);
    assert!(matches!(entry, ProfileLogEntry::Add { profile } if profile.id == id));
    let mut own = custom("Own", 5_000_000, 60);
    own.id = 77;
    let (id, _) = store.add(own).expect("id given");
    assert_eq!(id, 77);
}
