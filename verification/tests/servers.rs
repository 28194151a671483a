use prism_client::servers::{
    accent_color_for_name, SavedServer, ServerEdit, ServerLogEntry, ServerStore,
};

fn temp_store() -> ServerStore {
    ServerStore::new()
}

/// Reopen a store from a snapshot and the log written since.
fn reopen(snapshot: Vec<SavedServer>, log: &[ServerLogEntry]) -> ServerStore {
    let mut store = ServerStore::from_snapshot(snapshot);
    for entry in log {
        store.apply_entry(entry.clone());
    }
    store
}

#[test]
fn new_store_has_no_servers() {
    let store = temp_store();
    assert!(store.servers().is_empty());
}

#[test]
fn add_and_retrieve_server() {
    let mut store = temp_store();
    let server = SavedServer::new("My Server", "192.168.1.1:4000").expect("fresh id");
    let id = server.id;
    store.add(server);

    assert_eq!(store.servers().len(), 1);
    let retrieved = store.get(id).expect("get");
    assert_eq!(retrieved.display_name, "My Server");
    assert_eq!(retrieved.address, "192.168.1.1:4000");
}

#[test]
fn update_server() {
    let mut store = temp_store();
    let server = SavedServer::new("Old Name", "10.0.0.1:4000").expect("fresh id");
    let id = server.id;
    store.add(server);

    let mut edit = ServerEdit::none();
    edit.display_name = Some("New Name".to_string());
    store.update(id, edit).expect("update");

    assert_eq!(store.get(id).unwrap().display_name, "New Name");
    assert_eq!(store.get(id).unwrap().address, "10.0.0.1:4000");
}

#[test]
fn delete_server() {
    let mut store = temp_store();
    let server = SavedServer::new("Temp", "10.0.0.2:4000").expect("fresh id");
    let id = server.id;
    store.add(server);
    assert_eq!(store.servers().len(), 1);

    store.delete(id);
    assert!(store.servers().is_empty());
    assert!(store.get(id).is_none());
}

#[test]
fn persistence_survives_reopen() {
    let mut log = Vec::new();
    {
        let mut store = temp_store();
        let server = SavedServer::new("Persistent", "10.0.0.3:4000").expect("fresh id");
        log.push(store.add(server));
    }
    let store2 = reopen(Vec::new(), &log);
    assert_eq!(store2.servers().len(), 1);
    assert_eq!(store2.servers()[0].display_name, "Persistent");
}

#[test]
fn compaction_works() {
    let snapshot;
    {
        let mut store = temp_store();
        let server = SavedServer::new("ToDelete", "10.0.0.4:4000").expect("fresh id");
        let id = server.id;
        store.add(server);
        store.delete(id);
        snapshot = store.servers().to_vec();
    }
    let store2 = reopen(snapshot, &[]);
    assert!(store2.servers().is_empty());
}

#[test]
fn accent_color_from_name() {
    let c1 = accent_color_for_name("Alpha");
    let c2 = accent_color_for_name("Alpha");
    assert_eq!(c1, c2);

    let c3 = accent_color_for_name("Beta");
    assert_ne!(c1, c3);
}

#[test]
fn accent_colors_of_known_names() {
    // djb2("Alpha") % 100 = 91, so the hue is 311: magenta, blue ramps down.
    assert_eq!(accent_color_for_name("Alpha"), [224, 82, 198]);
    // djb2("Beta") % 100 = 57: hue 277, red ramps up (81.6 + 2.38 * 37 = 169.66).
    assert_eq!(accent_color_for_name("Beta"), [170, 82, 224]);
    assert_eq!(accent_color_for_name(""), accent_color_for_name(""));
}

#[test]
fn update_of_unknown_id_changes_nothing() {
    let mut store = temp_store();
    store.add(SavedServer::with_identity(7, 100, "A", "a:1"));
    assert!(store.update(8, ServerEdit::none()).is_none());
    assert_eq!(store.servers().len(), 1);
    assert_eq!(store.servers()[0].display_name, "A");
}

#[test]
fn fresh_server_fields() {
    let s = SavedServer::with_identity(42, 1_700_000_000, "Desk", "10.1.1.1:7000");
    assert_eq!(s.id, 42);
    assert_eq!(s.created_at, 1_700_000_000);
    assert_eq!(s.default_profile, "default");
    assert!(s.noise_public_key.is_none());
    assert!(s.last_connected.is_none());
    assert_eq!(s.accent_color, accent_color_for_name("Desk"));
    let fresh = SavedServer::new("Desk", "10.1.1.1:7000").expect("fresh id");
    assert_eq!((fresh.id >> 76) & 0xF, 7, "version-7 uuid");
}

#[test]
fn replaying_the_log_rebuilds_the_store() {
    let mut store = temp_store();
    let mut log = Vec::new();
    log.push(store.add(SavedServer::with_identity(1, 10, "One", "1.1.1.1:1")));
    log.push(store.add(SavedServer::with_identity(2, 20, "Two", "2.2.2.2:2")));
    let mut edit = ServerEdit::none();
    edit.address = Some("3.3.3.3:3".to_string());
    log.push(store.update(2, edit).unwrap());
    log.push(store.delete(1));
    let reopened = reopen(Vec::new(), &log);
    assert_eq!(reopened.servers().len(), store.servers().len());
    assert_eq!(reopened.servers()[0].id, 2);
    assert_eq!(reopened.servers()[0].address, "3.3.3.3:3");
}

#[test]
fn loading_replays_log_over_snapshot() {
    let a = SavedServer::with_identity(1, 10, "A", "a:1");
    let b = SavedServer::with_identity(2, 20, "B", "b:1");
    let mut b2 = b.clone();
    b2.display_name = "B2".to_string();
    let c = SavedServer::with_identity(3, 30, "C", "c:1");
    let log = vec![
        ServerLogEntry::Update { server: b2 },
        ServerLogEntry::Delete { id: 1 },
        ServerLogEntry::Add { server: c },
        ServerLogEntry::Delete { id: 99 },
    ];
    let store = ServerStore::from_loaded(vec![a, b], log);
    let names: Vec<&str> = store.servers().iter().map(|s| s.display_name.as_str()).collect();
    assert_eq!(names, vec!["B2", "C"]);
    assert!(ServerStore::from_loaded(Vec::new(), Vec::new()).servers().is_empty());
}

fn summary(store: &ServerStore) -> Vec<(u128, String, String)> {
    store.servers().iter().map(|s| (s.id, s.display_name.clone(), s.address.clone())).collect()
}

#[test]
fn reopening_after_operations_and_after_compaction_gives_the_same_list() {
    let snapshot = vec![SavedServer::with_identity(1, 10, "One", "1.1.1.1:1")];
    let mut store = ServerStore::from_loaded(snapshot.clone(), Vec::new());
    let mut log = Vec::new();
    log.push(store.add(SavedServer::with_identity(2, 20, "Two", "2.2.2.2:2")));
    let mut edit = ServerEdit::none();
    edit.display_name = Some("Uno".to_string());
    if let Some(e) = store.update(1, edit) {
        log.push(e);
    }
    log.push(store.add(SavedServer::with_identity(3, 30, "Three", "3.3.3.3:3")));
    log.push(store.delete(2));
    let reopened = ServerStore::from_loaded(snapshot, log);
    assert_eq!(summary(&reopened), summary(&store));
    assert_eq!(
        summary(&store),
        vec![(1, "Uno".to_string(), "1.1.1.1:1".to_string()), (3, "Three".to_string(), "3.3.3.3:3".to_string())]
    );
    let compacted = ServerStore::from_loaded(store.servers().to_vec(), Vec::new());
    assert_eq!(summary(&compacted), summary(&store));
}
