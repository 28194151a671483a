//! Saved servers: deterministic accent colours, the saved-server record, and
//! the in-memory store rebuilt from a snapshot plus an append-only log.

use vstd::prelude::*;
use vstd::string::StringSliceAdditionalSpecFns;
use crate::platform::{fresh_uuid_v7, unix_time_secs, uuid_version};

verus! {

/// djb2 hash of a byte string (`h = h * 33 + b`, wrapping at 2^64, from 5381).
pub open spec fn djb2(bytes: Seq<u8>) -> u64
    decreases bytes.len(),
{
    if bytes.len() == 0 {
        5381u64
    } else {
        let h = djb2(bytes.drop_last());
        ((h as nat * 33 + bytes.last() as nat) % 0x1_0000_0000_0000_0000) as u64
    }
}

/// The hue (in degrees) of the accent colour for a name: 220 plus the hash
/// of its UTF-8 bytes modulo 100.
pub open spec fn accent_hue(bytes: Seq<u8>) -> int {
    220 + (djb2(bytes) % 100) as int
}

/// One channel of an HSL colour with saturation 0.7 and lightness 0.6 whose
/// hue is `k` degrees away from the channel's peak: `0.32 + 0.56 * k / 60`
/// scaled to 255 and rounded (this is `81.6 + 2.38 k`). At hue 245 the
/// double-precision evaluation of that formula lands just below 93.5, so that
/// single value rounds down.
pub open spec fn ramp_channel(k: int, hue: int) -> u8 {
    if hue == 245 {
        93u8
    } else {
        ((8160 + 238 * k + 50) / 100) as u8
    }
}

/// RGB of the HSL colour (hue, 0.7, 0.6) for hues in `220 ..= 319`.
pub open spec fn accent_rgb(hue: int) -> Seq<u8> {
    if hue < 240 {
        seq![82u8, ramp_channel(240 - hue, hue), 224u8]
    } else if hue < 300 {
        seq![ramp_channel(hue - 240, hue), 82u8, 224u8]
    } else {
        seq![224u8, 82u8, ramp_channel(360 - hue, hue)]
    }
}

fn djb2_hash(bytes: &[u8]) -> (h: u64)
    ensures
        h == djb2(bytes@),
{
    let mut h: u64 = 5381;
    let mut i: usize = 0;
    while i < bytes.len()
        invariant
            i <= bytes@.len(),
            h == djb2(bytes@.subrange(0, i as int)),
        decreases bytes@.len() - i,
    {
        proof {
            let pre = bytes@.subrange(0, i as int + 1);
            assert(pre.drop_last() =~= bytes@.subrange(0, i as int));
            assert(pre.last() == bytes@[i as int]);
        }
        h = h.wrapping_mul(33).wrapping_add(bytes[i] as u64);
        proof {
            let a = h as nat;
            assert(vstd::wrapping::u64_specs::wrapping_mul(
                djb2(bytes@.subrange(0, i as int)),
                33,
            ) == (djb2(bytes@.subrange(0, i as int)) as nat * 33) % 0x1_0000_0000_0000_0000);
        }
        i = i + 1;
    }
    assert(bytes@.subrange(0, i as int) =~= bytes@);
    h
}

fn ramp(k: u64, hue: u64) -> (c: u8)
    requires
        k <= 60,
    ensures
        c == ramp_channel(k as int, hue as int),
{
    if hue == 245 {
        93
    } else {
        ((8160 + 238 * k + 50) / 100) as u8
    }
}

/// Deterministic accent colour for a server name: the djb2 hash of the
/// name's bytes picks a hue in 220..=319 (purple to cyan), rendered with
/// saturation 0.7 and lightness 0.6.
pub fn accent_color_for_name(name: &str) -> (rgb: [u8; 3])
    ensures
        rgb@ == accent_rgb(accent_hue(name.spec_bytes())),
{
    let hash = djb2_hash(name.as_bytes());
    let hue: u64 = 220 + hash % 100;
    let rgb = if hue < 240 {
        [82u8, ramp(240 - hue, hue), 224u8]
    } else if hue < 300 {
        [ramp(hue - 240, hue), 82u8, 224u8]
    } else {
        [224u8, 82u8, ramp(360 - hue, hue)]
    };
    assert(rgb@ =~= accent_rgb(accent_hue(name.spec_bytes())));
    rgb
}


/// A server the user saved in the launcher.
#[derive(Debug, Clone)]
pub struct SavedServer {
    /// UUID of the entry, as a big-endian `u128`.
    pub id: u128,
    pub display_name: String,
    pub address: String,
    pub noise_public_key: Option<String>,
    pub default_profile: String,
    pub accent_color: [u8; 3],
    /// Unix seconds of the last successful connection.
    pub last_connected: Option<u64>,
    pub last_resolution: Option<(u32, u32)>,
    pub last_codec: Option<String>,
    /// Unix seconds at which the entry was created.
    pub created_at: u64,
}

pub fn copy_opt_string(o: &Option<String>) -> (r: Option<String>)
    ensures
        r == *o,
{
    match o {
        Some(v) => Some(v.clone()),
        None => None,
    }
}

impl SavedServer {
    /// A field-by-field copy.
    pub fn duplicate(&self) -> (r: SavedServer)
        ensures
            r == *self,
    {
        SavedServer {
            id: self.id,
            display_name: self.display_name.clone(),
            address: self.address.clone(),
            noise_public_key: copy_opt_string(&self.noise_public_key),
            default_profile: self.default_profile.clone(),
            accent_color: self.accent_color,
            last_connected: self.last_connected,
            last_resolution: self.last_resolution,
            last_codec: copy_opt_string(&self.last_codec),
            created_at: self.created_at,
        }
    }

    /// What a freshly saved entry holds: the given id, name, address and
    /// creation time, the accent colour of the name, profile "default", and
    /// no key or connection history.
    pub open spec fn is_fresh(self, id: u128, created_at: u64, name: Seq<char>, name_bytes: Seq<u8>, address: Seq<char>) -> bool {
        &&& self.id == id
        &&& self.created_at == created_at
        &&& self.display_name@ == name
        &&& self.address@ == address
        &&& self.noise_public_key is None
        &&& self.default_profile@ == "default"@
        &&& self.accent_color@ == accent_rgb(accent_hue(name_bytes))
        &&& self.last_connected is None
        &&& self.last_resolution is None
        &&& self.last_codec is None
    }

    /// A new entry with a given identity and creation time.
    pub fn with_identity(id: u128, created_at: u64, display_name: &str, address: &str) -> (r: SavedServer)
        ensures
            r.is_fresh(id, created_at, display_name@, display_name.spec_bytes(), address@),
    {
        SavedServer {
            id,
            display_name: String::from_str(display_name),
            address: String::from_str(address),
            noise_public_key: None,
            default_profile: String::from_str("default"),
            accent_color: accent_color_for_name(display_name),
            last_connected: None,
            last_resolution: None,
            last_codec: None,
            created_at,
        }
    }

    /// A new entry with a fresh version-7 UUID, created now; `None` when no
    /// UUID can be made (the clock reads before the Unix epoch or the
    /// system's random source fails).
    pub fn new(display_name: &str, address: &str) -> (r: Option<SavedServer>)
        ensures
            r matches Some(sv) ==> uuid_version(sv.id) == 7 && sv.is_fresh(
                sv.id,
                sv.created_at,
                display_name@,
                display_name.spec_bytes(),
                address@,
            ),
    {
        let created_at = unix_time_secs();
        match fresh_uuid_v7() {
            Some(id) => Some(Self::with_identity(id, created_at, display_name, address)),
            None => None,
        }
    }
}

/// Changes requested for a saved server; `None` leaves a field as it is.
pub struct ServerEdit {
    pub display_name: Option<String>,
    pub address: Option<String>,
    pub noise_public_key: Option<Option<String>>,
    pub default_profile: Option<String>,
}

impl ServerEdit {
    /// An edit that changes nothing.
    pub fn none() -> (e: ServerEdit)
        ensures
            e.display_name is None,
            e.address is None,
            e.noise_public_key is None,
            e.default_profile is None,
    {
        ServerEdit { display_name: None, address: None, noise_public_key: None, default_profile: None }
    }
}

/// `server` with the fields that `edit` sets replaced.
pub open spec fn edited(server: SavedServer, edit: ServerEdit) -> SavedServer {
    SavedServer {
        display_name: match edit.display_name {
            Some(v) => v,
            None => server.display_name,
        },
        address: match edit.address {
            Some(v) => v,
            None => server.address,
        },
        noise_public_key: match edit.noise_public_key {
            Some(v) => v,
            None => server.noise_public_key,
        },
        default_profile: match edit.default_profile {
            Some(v) => v,
            None => server.default_profile,
        },
        ..server
    }
}

/// One record of the append-only server log.
#[derive(Debug, Clone)]
pub enum ServerLogEntry {
    Add { server: SavedServer },
    Update { server: SavedServer },
    Delete { id: u128 },
}

/// Index of the first server with `id` at or after `i`, or -1.
pub open spec fn find_server_from(s: Seq<SavedServer>, id: u128, i: nat) -> int
    decreases s.len() - i,
{
    if i >= s.len() {
        -1
    } else if s[i as int].id == id {
        i as int
    } else {
        find_server_from(s, id, i + 1)
    }
}

/// Index of the first server with `id`, or -1.
pub open spec fn find_server(s: Seq<SavedServer>, id: u128) -> int {
    find_server_from(s, id, 0)
}

/// `s` without the servers whose id is `id`, the others in their order.
pub open spec fn without_server(s: Seq<SavedServer>, id: u128) -> Seq<SavedServer>
    decreases s.len(),
{
    if s.len() == 0 {
        s
    } else {
        let rest = without_server(s.drop_last(), id);
        if s.last().id == id {
            rest
        } else {
            rest.push(s.last())
        }
    }
}

/// The list after one log record: an add appends, an update replaces the
/// first server with the same id (if any), a delete removes every server
/// with the id.
pub open spec fn apply_server_entry(s: Seq<SavedServer>, e: ServerLogEntry) -> Seq<SavedServer> {
    match e {
        ServerLogEntry::Add { server } => s.push(server),
        ServerLogEntry::Update { server } => {
            let i = find_server(s, server.id);
            if i >= 0 {
                s.update(i, server)
            } else {
                s
            }
        },
        ServerLogEntry::Delete { id } => without_server(s, id),
    }
}

/// The list after replaying a whole log on top of a snapshot.
pub open spec fn replay_servers(s: Seq<SavedServer>, log: Seq<ServerLogEntry>) -> Seq<SavedServer>
    decreases log.len(),
{
    if log.len() == 0 {
        s
    } else {
        apply_server_entry(replay_servers(s, log.drop_last()), log.last())
    }
}

proof fn lemma_find_server_from_bounds(s: Seq<SavedServer>, id: u128, i: nat)
    ensures
        find_server_from(s, id, i) == -1 || (i <= find_server_from(s, id, i) < s.len()
            && s[find_server_from(s, id, i)].id == id && forall|j: int|
            i <= j < find_server_from(s, id, i) ==> s[j].id != id),
        find_server_from(s, id, i) == -1 ==> forall|j: int| i <= j < s.len() ==> s[j].id != id,
    decreases s.len() - i,
{
    if i < s.len() && s[i as int].id != id {
        lemma_find_server_from_bounds(s, id, i + 1);
    }
}

/// `find_server` is the index of the first server with the id, or -1 when
/// no server has it.
pub proof fn lemma_find_server(s: Seq<SavedServer>, id: u128)
    ensures
        find_server(s, id) == -1 <==> forall|j: int| 0 <= j < s.len() ==> s[j].id != id,
        find_server(s, id) != -1 ==> 0 <= find_server(s, id) < s.len() && s[find_server(s, id)].id
            == id && forall|j: int| 0 <= j < find_server(s, id) ==> s[j].id != id,
{
    lemma_find_server_from_bounds(s, id, 0);
}

/// Saved servers in memory; persistence (snapshot file plus append-only log)
/// is driven by the caller, which writes the records that the operations return.
#[derive(Debug, Clone)]
pub struct ServerStore {
    servers: Vec<SavedServer>,
}

impl View for ServerStore {
    type V = Seq<SavedServer>;

    closed spec fn view(&self) -> Seq<SavedServer> {
        self.servers@
    }
}

impl ServerStore {
    /// An empty store.
    pub fn new() -> (st: ServerStore)
        ensures
            st@ == Seq::<SavedServer>::empty(),
    {
        ServerStore { servers: Vec::new() }
    }

    /// A store holding a loaded snapshot.
    pub fn from_snapshot(servers: Vec<SavedServer>) -> (st: ServerStore)
        ensures
            st@ == servers@,
    {
        ServerStore { servers }
    }

    /// The store reopened from disk: the snapshot (empty when none parsed)
    /// with the parsed log records replayed on it in file order.
    pub fn from_loaded(snapshot: Vec<SavedServer>, log: Vec<ServerLogEntry>) -> (st: ServerStore)
        ensures
            st@ == replay_servers(snapshot@, log@),
    {
        let mut st = ServerStore { servers: snapshot };
        let ghost base = st@;
        let mut i: usize = 0;
        while i < log.len()
            invariant
                i <= log@.len(),
                st@ == replay_servers(base, log@.subrange(0, i as int)),
            decreases log@.len() - i,
        {
            proof {
                let pre = log@.subrange(0, i as int + 1);
                assert(pre.drop_last() =~= log@.subrange(0, i as int));
            }
            st.apply_entry(duplicate_entry(&log[i]));
            i = i + 1;
        }
        assert(log@.subrange(0, i as int) =~= log@);
        st
    }

    /// All servers in insertion order.
    pub fn servers(&self) -> (s: &[SavedServer])
        ensures
            s@ == self@,
    {
        self.servers.as_slice()
    }

    fn position(&self, id: u128) -> (r: Option<usize>)
        ensures
            match r {
                Some(i) => i < self@.len() && find_server(self@, id) == i,
                None => find_server(self@, id) == -1,
            },
    {
        let mut i: usize = 0;
        while i < self.servers.len()
            invariant
                i <= self@.len(),
                find_server(self@, id) == find_server_from(self@, id, i as nat),
            decreases self@.len() - i,
        {
            if self.servers[i].id == id {
                return Some(i);
            }
            i = i + 1;
        }
        None
    }

    /// The first server with the given id.
    pub fn get(&self, id: u128) -> (r: Option<&SavedServer>)
        ensures
            match r {
                Some(s) => find_server(self@, id) >= 0 && *s == self@[find_server(self@, id)],
                None => find_server(self@, id) == -1,
            },
    {
        match self.position(id) {
            Some(i) => Some(&self.servers[i]),
            None => None,
        }
    }

    /// Apply one log record (used both for live changes and for replay).
    pub fn apply_entry(&mut self, entry: ServerLogEntry)
        ensures
            final(self)@ == apply_server_entry(old(self)@, entry),
    {
        match entry {
            ServerLogEntry::Add { server } => {
                self.servers.push(server);
            },
            ServerLogEntry::Update { server } => {
                match self.position(server.id) {
                    Some(i) => {
                        self.servers.set(i, server);
                    },
                    None => {},
                }
            },
            ServerLogEntry::Delete { id } => {
                let mut kept: Vec<SavedServer> = Vec::new();
                let mut i: usize = 0;
                let ghost s = self@;
                while i < self.servers.len()
                    invariant
                        s == self@,
                        i <= s.len(),
                        kept@ == without_server(s.subrange(0, i as int), id),
                    decreases s.len() - i,
                {
                    proof {
                        let pre = s.subrange(0, i as int + 1);
                        assert(pre.drop_last() =~= s.subrange(0, i as int));
                        assert(pre.last() == s[i as int]);
                    }
                    if self.servers[i].id != id {
                        kept.push(self.servers[i].duplicate());
                    }
                    i = i + 1;
                }
                assert(s.subrange(0, i as int) =~= s);
                self.servers = kept;
            },
        }
    }

    /// Add a server; returns the log record that describes the change.
    pub fn add(&mut self, server: SavedServer) -> (e: ServerLogEntry)
        ensures
            e == (ServerLogEntry::Add { server }),
            final(self)@ == apply_server_entry(old(self)@, e),
    {
        let entry = ServerLogEntry::Add { server: server.duplicate() };
        self.servers.push(server);
        entry
    }

    /// Apply `edit` to the first server with `id`; returns the update record,
    /// or `None` (and no change) when no server has the id.
    pub fn update(&mut self, id: u128, edit: ServerEdit) -> (e: Option<ServerLogEntry>)
        ensures
            find_server(old(self)@, id) == -1 ==> e is None && final(self)@ == old(self)@,
            find_server(old(self)@, id) >= 0 ==> e == Some(
                ServerLogEntry::Update { server: edited(old(self)@[find_server(old(self)@, id)], edit) },
            ) && final(self)@ == apply_server_entry(old(self)@, e.unwrap()),
    {
        match self.position(id) {
            Some(i) => {
                let current = self.servers[i].duplicate();
                let server = SavedServer {
                    display_name: match edit.display_name {
                        Some(v) => v,
                        None => current.display_name,
                    },
                    address: match edit.address {
                        Some(v) => v,
                        None => current.address,
                    },
                    noise_public_key: match edit.noise_public_key {
                        Some(v) => v,
                        None => current.noise_public_key,
                    },
                    default_profile: match edit.default_profile {
                        Some(v) => v,
                        None => current.default_profile,
                    },
                    ..current
                };
                proof {
                    lemma_find_server(self@, id);
                }
                let entry = ServerLogEntry::Update { server: server.duplicate() };
                self.servers.set(i, server);
                Some(entry)
            },
            None => None,
        }
    }

    /// Remove every server with `id`; returns the delete record (written even
    /// when no server had the id).
    pub fn delete(&mut self, id: u128) -> (e: ServerLogEntry)
        ensures
            e == (ServerLogEntry::Delete { id }),
            final(self)@ == apply_server_entry(old(self)@, e),
    {
        self.apply_entry(ServerLogEntry::Delete { id });
        ServerLogEntry::Delete { id }
    }
}


/// After a delete, no saved server has the deleted id, and every server with
/// another id is still present.
pub proof fn lemma_delete_removes_id(s: Seq<SavedServer>, id: u128)
    ensures
        forall|k: int| 0 <= k < without_server(s, id).len() ==> #[trigger] without_server(s, id)[k].id != id,
        forall|j: int| 0 <= j < s.len() && s[j].id != id ==> without_server(s, id).contains(#[trigger] s[j]),
        without_server(s, id).len() <= s.len(),
        find_server(without_server(s, id), id) == -1,
    decreases s.len(),
{
    if s.len() > 0 {
        lemma_delete_removes_id(s.drop_last(), id);
        let rest = without_server(s.drop_last(), id);
        assert forall|j: int| 0 <= j < s.len() && s[j].id != id implies without_server(s, id).contains(
            #[trigger] s[j],
        ) by {
            if j < s.len() - 1 {
                assert(s.drop_last()[j] == s[j]);
                let k = choose|k: int| 0 <= k < rest.len() && rest[k] == s[j];
                if s.last().id != id {
                    assert(without_server(s, id)[k] == s[j]);
                }
            } else {
                assert(without_server(s, id)[rest.len() as int] == s[j]);
            }
        }
    }
    lemma_find_server(without_server(s, id), id);
}

/// Adding a server whose id is not yet saved makes it the one that a lookup
/// by that id finds.
pub proof fn lemma_add_then_get(s: Seq<SavedServer>, server: SavedServer)
    requires
        find_server(s, server.id) == -1,
    ensures
        find_server(apply_server_entry(s, ServerLogEntry::Add { server }), server.id) == s.len(),
        apply_server_entry(s, ServerLogEntry::Add { server })[s.len() as int] == server,
{
    lemma_find_server(s, server.id);
    let t = s.push(server);
    lemma_find_server(t, server.id);
    assert(t[s.len() as int].id == server.id);
}

/// An update leaves the number of servers and every id in place.
pub proof fn lemma_update_keeps_ids(s: Seq<SavedServer>, server: SavedServer)
    ensures
        apply_server_entry(s, ServerLogEntry::Update { server }).len() == s.len(),
        forall|k: int|
            0 <= k < s.len() ==> #[trigger] apply_server_entry(s, ServerLogEntry::Update { server })[k].id
                == s[k].id,
{
    lemma_find_server(s, server.id);
}

/// Reopening gives back what the store held. Start from a list read back
/// from a snapshot and its log (`states[0]`); let each operation turn
/// `states[k]` into `states[k + 1]` by applying the record `recs[k]` it
/// returned, which the caller appends to the log. Then reopening the
/// snapshot with the extended log gives the last list, and so does reopening
/// a compacted store, whose snapshot is that list and whose log is empty.
pub proof fn lemma_reopen_round_trip(
    snapshot: Seq<SavedServer>,
    log: Seq<ServerLogEntry>,
    recs: Seq<ServerLogEntry>,
    states: Seq<Seq<SavedServer>>,
)
    requires
        states.len() == recs.len() + 1,
        states[0] == replay_servers(snapshot, log),
        forall|k: int| 0 <= k < recs.len() ==> states[k + 1] == apply_server_entry(states[k], #[trigger] recs[k]),
    ensures
        replay_servers(snapshot, log + recs) == states.last(),
        replay_servers(states.last(), Seq::<ServerLogEntry>::empty()) == states.last(),
    decreases recs.len(),
{
    if recs.len() == 0 {
        assert(log + recs =~= log);
    } else {
        let n = recs.len() as int;
        lemma_reopen_round_trip(snapshot, log, recs.drop_last(), states.drop_last());
        assert(recs[n - 1] == recs.last());
        assert((log + recs).drop_last() =~= log + recs.drop_last());
        assert((log + recs).last() == recs.last());
    }
}

/// Reopening a store (snapshot plus replayed log) gives back the list held
/// in memory: if the list equals the replay of the log so far, applying the
/// next record gives the replay of the log extended by that record.
pub proof fn lemma_log_replay_matches_memory(
    snapshot: Seq<SavedServer>,
    log: Seq<ServerLogEntry>,
    current: Seq<SavedServer>,
    entry: ServerLogEntry,
)
    requires
        current == replay_servers(snapshot, log),
    ensures
        apply_server_entry(current, entry) == replay_servers(snapshot, log.push(entry)),
{
    assert(log.push(entry).drop_last() =~= log);
}

/// A field-by-field copy of a log record.
pub fn duplicate_entry(e: &ServerLogEntry) -> (r: ServerLogEntry)
    ensures
        r == *e,
{
    match e {
        ServerLogEntry::Add { server } => ServerLogEntry::Add { server: server.duplicate() },
        ServerLogEntry::Update { server } => ServerLogEntry::Update { server: server.duplicate() },
        ServerLogEntry::Delete { id } => ServerLogEntry::Delete { id: *id },
    }
}

/// Reopening after further operations gives what the operations gave in
/// memory: replaying the log extended by the records `ops` equals replaying
/// `ops` on the list the log gave.
pub proof fn lemma_reopen_after_ops(snapshot: Seq<SavedServer>, log: Seq<ServerLogEntry>, ops: Seq<ServerLogEntry>)
    ensures
        replay_servers(snapshot, log + ops) == replay_servers(replay_servers(snapshot, log), ops),
    decreases ops.len(),
{
    if ops.len() == 0 {
        assert(log + ops =~= log);
    } else {
        lemma_reopen_after_ops(snapshot, log, ops.drop_last());
        assert((log + ops).drop_last() =~= log + ops.drop_last());
        assert((log + ops).last() == ops.last());
    }
}

/// Compaction writes the current list as the snapshot and empties the log;
/// reopening then gives the same list.
pub proof fn lemma_compaction_preserves(current: Seq<SavedServer>)
    ensures
        replay_servers(current, Seq::<ServerLogEntry>::empty()) == current,
{
}

} // verus!
