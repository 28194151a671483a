//! Streaming profiles: the four built-in presets, the in-memory profile store
//! rebuilt from a snapshot plus an append-only log, and the mappings used by
//! the profile editor.

use vstd::prelude::*;
use crate::platform::{fresh_uuid_v7, lemma_v7_not_nil, uuid_version};

verus! {

/// Audio encoding mode of a profile.
#[derive(Debug, Clone, Copy, PartialEq, Eq, Structural)]
pub enum AudioMode {
    Stereo,
    VoiceOptimized,
}

/// Encoder preset requested from the host.
#[derive(Debug, Clone, Copy, PartialEq, Eq, Structural)]
pub enum EncoderPreset {
    UltraLowLatency,
    Balanced,
    Quality,
}

/// A streaming profile.
#[derive(Debug, Clone)]
pub struct ProfileConfig {
    /// UUID of the profile, as a big-endian `u128` (0 is the nil UUID).
    pub id: u128,
    pub name: String,
    pub builtin: bool,
    pub bitrate_bps: u64,
    pub max_fps: u8,
    pub encoder_preset: EncoderPreset,
    pub prefer_native_scaling: bool,
    pub audio_mode: AudioMode,
    pub prefer_av1: bool,
    pub exclusive_input: bool,
    pub touch_mode: bool,
    pub auto_reconnect: bool,
}

impl ProfileConfig {
    /// A field-by-field copy.
    pub fn duplicate(&self) -> (r: ProfileConfig)
        ensures
            r == *self,
    {
        ProfileConfig { name: self.name.clone(), ..*self }
    }
}

pub const GAMING_ID: u128 = 0x11111111_1111_7111_8111_111111111111;
pub const CODING_ID: u128 = 0x22222222_2222_7222_8222_222222222222;
pub const BALANCED_ID: u128 = 0x33333333_3333_7333_8333_333333333333;
pub const LOW_BANDWIDTH_ID: u128 = 0x44444444_4444_7444_8444_444444444444;

/// The settings of a profile other than its name.
pub open spec fn has_settings(
    p: ProfileConfig,
    id: u128,
    builtin: bool,
    bitrate_bps: u64,
    max_fps: u8,
    encoder_preset: EncoderPreset,
    prefer_native_scaling: bool,
    audio_mode: AudioMode,
    prefer_av1: bool,
    exclusive_input: bool,
    touch_mode: bool,
    auto_reconnect: bool,
) -> bool {
    &&& p.id == id
    &&& p.builtin == builtin
    &&& p.bitrate_bps == bitrate_bps
    &&& p.max_fps == max_fps
    &&& p.encoder_preset == encoder_preset
    &&& p.prefer_native_scaling == prefer_native_scaling
    &&& p.audio_mode == audio_mode
    &&& p.prefer_av1 == prefer_av1
    &&& p.exclusive_input == exclusive_input
    &&& p.touch_mode == touch_mode
    &&& p.auto_reconnect == auto_reconnect
}

/// The built-in profiles, in order: Gaming, Coding, Balanced, Low Bandwidth.
pub open spec fn is_builtin_list(s: Seq<ProfileConfig>) -> bool {
    &&& s.len() == 4
    &&& s[0].name@ == "Gaming"@
    &&& has_settings(s[0], GAMING_ID, true, 45_000_000, 120, EncoderPreset::UltraLowLatency, true, AudioMode::Stereo, true, true, false, true)
    &&& s[1].name@ == "Coding"@
    &&& has_settings(s[1], CODING_ID, true, 30_000_000, 60, EncoderPreset::Quality, true, AudioMode::Stereo, true, true, false, true)
    &&& s[2].name@ == "Balanced"@
    &&& has_settings(s[2], BALANCED_ID, true, 25_000_000, 90, EncoderPreset::Balanced, true, AudioMode::Stereo, true, false, false, true)
    &&& s[3].name@ == "Low Bandwidth"@
    &&& has_settings(s[3], LOW_BANDWIDTH_ID, true, 8_000_000, 45, EncoderPreset::Balanced, false, AudioMode::VoiceOptimized, false, false, false, false)
}

/// The Balanced preset, also the editor's fallback profile.
pub fn balanced_profile() -> (p: ProfileConfig)
    ensures
        p.name@ == "Balanced"@,
        has_settings(p, BALANCED_ID, true, 25_000_000, 90, EncoderPreset::Balanced, true, AudioMode::Stereo, true, false, false, true),
{
    ProfileConfig {
        id: BALANCED_ID,
        name: String::from_str("Balanced"),
        builtin: true,
        bitrate_bps: 25_000_000,
        max_fps: 90,
        encoder_preset: EncoderPreset::Balanced,
        prefer_native_scaling: true,
        audio_mode: AudioMode::Stereo,
        prefer_av1: true,
        exclusive_input: false,
        touch_mode: false,
        auto_reconnect: true,
    }
}

/// The four built-in profiles.
pub fn builtin_profiles() -> (v: Vec<ProfileConfig>)
    ensures
        is_builtin_list(v@),
{
    let mut v: Vec<ProfileConfig> = Vec::new();
    v.push(ProfileConfig {
        id: GAMING_ID,
        name: String::from_str("Gaming"),
        builtin: true,
        bitrate_bps: 45_000_000,
        max_fps: 120,
        encoder_preset: EncoderPreset::UltraLowLatency,
        prefer_native_scaling: true,
        audio_mode: AudioMode::Stereo,
        prefer_av1: true,
        exclusive_input: true,
        touch_mode: false,
        auto_reconnect: true,
    });
    v.push(ProfileConfig {
        id: CODING_ID,
        name: String::from_str("Coding"),
        builtin: true,
        bitrate_bps: 30_000_000,
        max_fps: 60,
        encoder_preset: EncoderPreset::Quality,
        prefer_native_scaling: true,
        audio_mode: AudioMode::Stereo,
        prefer_av1: true,
        exclusive_input: true,
        touch_mode: false,
        auto_reconnect: true,
    });
    v.push(balanced_profile());
    v.push(ProfileConfig {
        id: LOW_BANDWIDTH_ID,
        name: String::from_str("Low Bandwidth"),
        builtin: true,
        bitrate_bps: 8_000_000,
        max_fps: 45,
        encoder_preset: EncoderPreset::Balanced,
        prefer_native_scaling: false,
        audio_mode: AudioMode::VoiceOptimized,
        prefer_av1: false,
        exclusive_input: false,
        touch_mode: false,
        auto_reconnect: false,
    });
    v
}


/// One record of the append-only profile log.
#[derive(Debug, Clone)]
pub enum ProfileLogEntry {
    Add { profile: ProfileConfig },
    Update { profile: ProfileConfig },
    Delete { id: u128 },
}

/// Why a profile operation was refused.
#[derive(Debug, Clone, Copy, PartialEq, Eq, Structural)]
pub enum ProfileStoreError {
    /// No profile has the id.
    NotFound,
    /// Built-in profiles cannot be deleted.
    PermissionDenied,
    /// A new profile needed an id and none could be made (the clock reads
    /// before the Unix epoch or the system's random source failed).
    NoFreshId,
}

/// Index of the first profile with `id` at or after `i`, or -1.
pub open spec fn find_profile_from(s: Seq<ProfileConfig>, id: u128, i: nat) -> int
    decreases s.len() - i,
{
    if i >= s.len() {
        -1
    } else if s[i as int].id == id {
        i as int
    } else {
        find_profile_from(s, id, i + 1)
    }
}

/// Index of the first profile with `id`, or -1.
pub open spec fn find_profile(s: Seq<ProfileConfig>, id: u128) -> int {
    find_profile_from(s, id, 0)
}

/// Index of the first profile named `name` at or after `i`, or -1.
pub open spec fn find_profile_named_from(s: Seq<ProfileConfig>, name: Seq<char>, i: nat) -> int
    decreases s.len() - i,
{
    if i >= s.len() {
        -1
    } else if s[i as int].name@ == name {
        i as int
    } else {
        find_profile_named_from(s, name, i + 1)
    }
}

/// Index of the first profile named `name`, or -1.
pub open spec fn find_profile_named(s: Seq<ProfileConfig>, name: Seq<char>) -> int {
    find_profile_named_from(s, name, 0)
}

/// `s` without the profiles whose id is `id`, the others in their order.
pub open spec fn without_profile(s: Seq<ProfileConfig>, id: u128) -> Seq<ProfileConfig>
    decreases s.len(),
{
    if s.len() == 0 {
        s
    } else {
        let rest = without_profile(s.drop_last(), id);
        if s.last().id == id {
            rest
        } else {
            rest.push(s.last())
        }
    }
}

/// The list after one log record.
pub open spec fn apply_profile_entry(s: Seq<ProfileConfig>, e: ProfileLogEntry) -> Seq<ProfileConfig> {
    match e {
        ProfileLogEntry::Add { profile } => s.push(profile),
        ProfileLogEntry::Update { profile } => {
            let i = find_profile(s, profile.id);
            if i >= 0 {
                s.update(i, profile)
            } else {
                s
            }
        },
        ProfileLogEntry::Delete { id } => without_profile(s, id),
    }
}

/// The list after replaying a log on top of a list.
pub open spec fn replay_profiles(s: Seq<ProfileConfig>, log: Seq<ProfileLogEntry>) -> Seq<ProfileConfig>
    decreases log.len(),
{
    if log.len() == 0 {
        s
    } else {
        apply_profile_entry(replay_profiles(s, log.drop_last()), log.last())
    }
}

proof fn lemma_find_profile_from(s: Seq<ProfileConfig>, id: u128, i: nat)
    ensures
        find_profile_from(s, id, i) == -1 || (i <= find_profile_from(s, id, i) < s.len()
            && s[find_profile_from(s, id, i)].id == id),
        find_profile_from(s, id, i) == -1 ==> forall|j: int| i <= j < s.len() ==> s[j].id != id,
    decreases s.len() - i,
{
    if i < s.len() && s[i as int].id != id {
        lemma_find_profile_from(s, id, i + 1);
    }
}

/// `find_profile` is a valid index holding the id, or -1 when no profile has it.
pub proof fn lemma_find_profile(s: Seq<ProfileConfig>, id: u128)
    ensures
        find_profile(s, id) == -1 <==> forall|j: int| 0 <= j < s.len() ==> s[j].id != id,
        find_profile(s, id) != -1 ==> 0 <= find_profile(s, id) < s.len() && s[find_profile(s, id)].id
            == id,
{
    lemma_find_profile_from(s, id, 0);
}

proof fn lemma_find_profile_named_from(s: Seq<ProfileConfig>, name: Seq<char>, i: nat)
    ensures
        find_profile_named_from(s, name, i) == -1 || (i <= find_profile_named_from(s, name, i) < s.len()
            && s[find_profile_named_from(s, name, i)].name@ == name),
    decreases s.len() - i,
{
    if i < s.len() && s[i as int].name@ != name {
        lemma_find_profile_named_from(s, name, i + 1);
    }
}

/// Streaming profiles in memory; persistence (snapshot file plus
/// append-only log) is driven by the caller, which writes the records that
/// the operations return.
#[derive(Debug, Clone)]
pub struct ProfileStore {
    profiles: Vec<ProfileConfig>,
}

impl View for ProfileStore {
    type V = Seq<ProfileConfig>;

    closed spec fn view(&self) -> Seq<ProfileConfig> {
        self.profiles@
    }
}

/// The list a store opens with: the snapshot (or the built-ins when there is
/// none) with the log replayed on top, or the built-ins when that is empty.
pub open spec fn opened_profiles(snapshot: Option<Seq<ProfileConfig>>, builtins: Seq<ProfileConfig>, log: Seq<ProfileLogEntry>) -> Seq<ProfileConfig> {
    let base = match snapshot {
        Some(s) => s,
        None => builtins,
    };
    let replayed = replay_profiles(base, log);
    if replayed.len() == 0 {
        builtins
    } else {
        replayed
    }
}

fn duplicate_profiles(v: &Vec<ProfileConfig>) -> (r: Vec<ProfileConfig>)
    ensures
        r@ == v@,
{
    let mut r: Vec<ProfileConfig> = Vec::new();
    let mut i: usize = 0;
    while i < v.len()
        invariant
            i <= v@.len(),
            r@ == v@.subrange(0, i as int),
        decreases v@.len() - i,
    {
        r.push(v[i].duplicate());
        i = i + 1;
        assert(r@ =~= v@.subrange(0, i as int));
    }
    assert(v@.subrange(0, i as int) =~= v@);
    r
}

impl ProfileStore {
    /// Build the store from what was read from disk: the snapshot, if one
    /// parsed, and the parsed log records in file order.
    pub fn from_loaded(snapshot: Option<Vec<ProfileConfig>>, log: Vec<ProfileLogEntry>) -> (st: ProfileStore)
        ensures
            exists|b: Seq<ProfileConfig>|
                is_builtin_list(b) && st@ == opened_profiles(
                    match snapshot {
                        Some(v) => Some(v@),
                        None => None,
                    },
                    b,
                    log@,
                ),
            st@.len() > 0,
    {
        let builtins = builtin_profiles();
        let ghost b = builtins@;
        let ghost snap = match &snapshot {
            Some(v) => Some(v@),
            None => None::<Seq<ProfileConfig>>,
        };
        let base = match snapshot {
            Some(v) => v,
            None => duplicate_profiles(&builtins),
        };
        let mut st = ProfileStore { profiles: base };
        assert(is_builtin_list(b));
        let mut i: usize = 0;
        while i < log.len()
            invariant
                i <= log@.len(),
                st@ == replay_profiles(
                    match snap {
                        Some(s) => s,
                        None => b,
                    },
                    log@.subrange(0, i as int),
                ),
                builtins@ == b,
                is_builtin_list(b),
            decreases log@.len() - i,
        {
            proof {
                let pre = log@.subrange(0, i as int + 1);
                assert(pre.drop_last() =~= log@.subrange(0, i as int));
            }
            st.apply_entry(log[i].duplicate());
            i = i + 1;
        }
        assert(log@.subrange(0, i as int) =~= log@);
        if st.profiles.len() == 0 {
            st.profiles = builtins;
        }
        st
    }

    /// All profiles in order.
    pub fn list(&self) -> (s: &[ProfileConfig])
        ensures
            s@ == self@,
    {
        self.profiles.as_slice()
    }

    fn position(&self, id: u128) -> (r: Option<usize>)
        ensures
            match r {
                Some(i) => i < self@.len() && find_profile(self@, id) == i,
                None => find_profile(self@, id) == -1,
            },
    {
        let mut i: usize = 0;
        while i < self.profiles.len()
            invariant
                i <= self@.len(),
                find_profile(self@, id) == find_profile_from(self@, id, i as nat),
            decreases self@.len() - i,
        {
            if self.profiles[i].id == id {
                return Some(i);
            }
            i = i + 1;
        }
        None
    }

    /// The first profile with the given id.
    pub fn get(&self, id: u128) -> (r: Option<&ProfileConfig>)
        ensures
            match r {
                Some(p) => 0 <= find_profile(self@, id) < self@.len() && *p == self@[find_profile(self@, id)],
                None => find_profile(self@, id) == -1,
            },
    {
        match self.position(id) {
            Some(i) => Some(&self.profiles[i]),
            None => None,
        }
    }

    /// The first profile with the given name.
    pub fn get_by_name(&self, name: &str) -> (r: Option<&ProfileConfig>)
        ensures
            match r {
                Some(p) => 0 <= find_profile_named(self@, name@) < self@.len() && *p == self@[find_profile_named(self@, name@)],
                None => find_profile_named(self@, name@) == -1,
            },
    {
        let wanted = String::from_str(name);
        let mut i: usize = 0;
        while i < self.profiles.len()
            invariant
                i <= self@.len(),
                wanted@ == name@,
                find_profile_named(self@, name@) == find_profile_named_from(self@, name@, i as nat),
            decreases self@.len() - i,
        {
            if self.profiles[i].name == wanted {
                return Some(&self.profiles[i]);
            }
            i = i + 1;
        }
        None
    }

    /// Apply one log record (used both for live changes and for replay).
    pub fn apply_entry(&mut self, entry: ProfileLogEntry)
        ensures
            final(self)@ == apply_profile_entry(old(self)@, entry),
    {
        match entry {
            ProfileLogEntry::Add { profile } => {
                self.profiles.push(profile);
            },
            ProfileLogEntry::Update { profile } => {
                match self.position(profile.id) {
                    Some(i) => {
                        self.profiles.set(i, profile);
                    },
                    None => {},
                }
            },
            ProfileLogEntry::Delete { id } => {
                self.remove_id(id);
            },
        }
    }

    fn remove_id(&mut self, id: u128)
        ensures
            final(self)@ == without_profile(old(self)@, id),
    {
        let mut kept: Vec<ProfileConfig> = Vec::new();
        let mut i: usize = 0;
        let ghost s = self@;
        while i < self.profiles.len()
            invariant
                s == self@,
                i <= s.len(),
                kept@ == without_profile(s.subrange(0, i as int), id),
            decreases s.len() - i,
        {
            proof {
                let pre = s.subrange(0, i as int + 1);
                assert(pre.drop_last() =~= s.subrange(0, i as int));
                assert(pre.last() == s[i as int]);
            }
            if self.profiles[i].id != id {
                kept.push(self.profiles[i].duplicate());
            }
            i = i + 1;
        }
        assert(s.subrange(0, i as int) =~= s);
        self.profiles = kept;
    }

    /// Add a profile, giving it a fresh version-7 id when its id is nil;
    /// returns the id and the log record, or `NoFreshId` (and no change)
    /// when the id is nil and no fresh one can be made.
    pub fn add(&mut self, profile: ProfileConfig) -> (r: Result<(u128, ProfileLogEntry), ProfileStoreError>)
        ensures
            profile.id != 0 ==> r is Ok && r->Ok_0.0 == profile.id,
            r is Err ==> profile.id == 0 && r == Err::<(u128, ProfileLogEntry), ProfileStoreError>(
                ProfileStoreError::NoFreshId,
            ) && final(self)@ == old(self)@,
            r matches Ok(ok) ==> {
                &&& ok.0 != 0
                &&& profile.id == 0 ==> uuid_version(ok.0) == 7
                &&& ok.1 == (ProfileLogEntry::Add { profile: ProfileConfig { id: ok.0, ..profile } })
                &&& final(self)@ == apply_profile_entry(old(self)@, ok.1)
            },
    {
        let mut profile = profile;
        if profile.id == 0 {
            match fresh_uuid_v7() {
                Some(id) => {
                    proof {
                        lemma_v7_not_nil(id);
                    }
                    profile.id = id;
                },
                None => return Err(ProfileStoreError::NoFreshId),
            }
        }
        let id = profile.id;
        let entry = ProfileLogEntry::Add { profile: profile.duplicate() };
        self.profiles.push(profile);
        Ok((id, entry))
    }

    /// Replace the profile with `id` by `profile` (which takes that id, and
    /// stays built-in when the replaced one was); `NotFound` when no
    /// profile has the id.
    pub fn update(&mut self, id: u128, profile: ProfileConfig) -> (r: Result<ProfileLogEntry, ProfileStoreError>)
        ensures
            find_profile(old(self)@, id) == -1 ==> r == Err::<ProfileLogEntry, ProfileStoreError>(ProfileStoreError::NotFound)
                && final(self)@ == old(self)@,
            find_profile(old(self)@, id) >= 0 ==> r == Ok::<ProfileLogEntry, ProfileStoreError>(
                ProfileLogEntry::Update {
                    profile: ProfileConfig {
                        id,
                        builtin: profile.builtin || old(self)@[find_profile(old(self)@, id)].builtin,
                        ..profile
                    },
                },
            ) && final(self)@ == apply_profile_entry(old(self)@, r.unwrap()),
    {
        match self.position(id) {
            None => Err(ProfileStoreError::NotFound),
            Some(i) => {
                let mut profile = profile;
                profile.id = id;
                if self.profiles[i].builtin {
                    profile.builtin = true;
                }
                let entry = ProfileLogEntry::Update { profile: profile.duplicate() };
                self.profiles.set(i, profile);
                Ok(entry)
            },
        }
    }

    /// Delete the profile with `id`: `NotFound` when no profile has it,
    /// `PermissionDenied` (and no change) when it is built-in.
    pub fn delete(&mut self, id: u128) -> (r: Result<ProfileLogEntry, ProfileStoreError>)
        ensures
            find_profile(old(self)@, id) == -1 ==> r == Err::<ProfileLogEntry, ProfileStoreError>(ProfileStoreError::NotFound)
                && final(self)@ == old(self)@,
            find_profile(old(self)@, id) >= 0 && old(self)@[find_profile(old(self)@, id)].builtin
                ==> r == Err::<ProfileLogEntry, ProfileStoreError>(ProfileStoreError::PermissionDenied) && final(self)@ == old(self)@,
            find_profile(old(self)@, id) >= 0 && !old(self)@[find_profile(old(self)@, id)].builtin
                ==> r == Ok::<ProfileLogEntry, ProfileStoreError>(ProfileLogEntry::Delete { id })
                && final(self)@ == apply_profile_entry(old(self)@, r.unwrap()),
    {
        match self.position(id) {
            None => Err(ProfileStoreError::NotFound),
            Some(i) => {
                if self.profiles[i].builtin {
                    Err(ProfileStoreError::PermissionDenied)
                } else {
                    self.remove_id(id);
                    Ok(ProfileLogEntry::Delete { id })
                }
            },
        }
    }
}

impl ProfileLogEntry {
    /// A field-by-field copy.
    pub fn duplicate(&self) -> (r: ProfileLogEntry)
        ensures
            r == *self,
    {
        match self {
            ProfileLogEntry::Add { profile } => ProfileLogEntry::Add { profile: profile.duplicate() },
            ProfileLogEntry::Update { profile } => ProfileLogEntry::Update { profile: profile.duplicate() },
            ProfileLogEntry::Delete { id } => ProfileLogEntry::Delete { id: *id },
        }
    }
}


/// Reopening the profile store gives back what it held. Start from a list
/// replayed from a base list and its log (`states[0]`); let each operation
/// turn `states[k]` into `states[k + 1]` by applying the record `recs[k]` it
/// returned, which the caller appends to the log. Then replaying the base
/// with the extended log gives the last list; opening a snapshot of it with
/// that log, or a compacted store (that list as snapshot, empty log), gives
/// it back too, unless it is empty, where opening falls back to the
/// built-in profiles.
pub proof fn lemma_profile_reopen_round_trip(
    base: Seq<ProfileConfig>,
    log: Seq<ProfileLogEntry>,
    recs: Seq<ProfileLogEntry>,
    states: Seq<Seq<ProfileConfig>>,
    builtins: Seq<ProfileConfig>,
)
    requires
        states.len() == recs.len() + 1,
        states[0] == replay_profiles(base, log),
        forall|k: int| 0 <= k < recs.len() ==> states[k + 1] == apply_profile_entry(states[k], #[trigger] recs[k]),
    ensures
        replay_profiles(base, log + recs) == states.last(),
        states.last().len() > 0 ==> opened_profiles(Some(base), builtins, log + recs) == states.last(),
        states.last().len() > 0 ==> opened_profiles(
            Some(states.last()),
            builtins,
            Seq::<ProfileLogEntry>::empty(),
        ) == states.last(),
    decreases recs.len(),
{
    if recs.len() == 0 {
        assert(log + recs =~= log);
    } else {
        let n = recs.len() as int;
        lemma_profile_reopen_round_trip(base, log, recs.drop_last(), states.drop_last(), builtins);
        assert(recs[n - 1] == recs.last());
        assert((log + recs).drop_last() =~= log + recs.drop_last());
        assert((log + recs).last() == recs.last());
    }
}

/// Reopening the profile store gives back the list held in memory: applying
/// the next record to the replay of the log so far gives the replay of the
/// extended log.
pub proof fn lemma_profile_log_replay_matches_memory(
    base: Seq<ProfileConfig>,
    log: Seq<ProfileLogEntry>,
    current: Seq<ProfileConfig>,
    entry: ProfileLogEntry,
)
    requires
        current == replay_profiles(base, log),
    ensures
        apply_profile_entry(current, entry) == replay_profiles(base, log.push(entry)),
{
    assert(log.push(entry).drop_last() =~= log);
}

/// An update never clears the built-in flag of the profile it replaces: the
/// record the store writes keeps the replaced profile's id, and is built-in
/// whenever that profile was.
pub proof fn lemma_update_keeps_builtin(s: Seq<ProfileConfig>, id: u128, profile: ProfileConfig)
    requires
        find_profile(s, id) >= 0,
        s[find_profile(s, id)].builtin,
    ensures
        ({
            let written = ProfileConfig { id, builtin: profile.builtin || s[find_profile(s, id)].builtin, ..profile };
            let t = apply_profile_entry(s, ProfileLogEntry::Update { profile: written });
            find_profile(t, id) == find_profile(s, id) && t[find_profile(t, id)].builtin
                && t.len() == s.len()
        }),
{
    lemma_find_profile(s, id);
    let written = ProfileConfig { id, builtin: profile.builtin || s[find_profile(s, id)].builtin, ..profile };
    let t = apply_profile_entry(s, ProfileLogEntry::Update { profile: written });
    let i = find_profile(s, id);
    lemma_find_from_agree(s, t, id, 0, i);
}

proof fn lemma_find_from_agree(s: Seq<ProfileConfig>, t: Seq<ProfileConfig>, id: u128, j: nat, i: int)
    requires
        0 <= j <= i < s.len(),
        t.len() == s.len(),
        find_profile_from(s, id, j) == i,
        t[i].id == id,
        forall|k: int| 0 <= k < s.len() && k != i ==> t[k] == s[k],
    ensures
        find_profile_from(t, id, j) == i,
    decreases i - j,
{
    if j < i {
        lemma_find_profile_from(s, id, j);
        lemma_find_from_agree(s, t, id, j + 1, i);
    }
}

pub open spec fn spec_encoder_index(preset: EncoderPreset) -> usize {
    match preset {
        EncoderPreset::UltraLowLatency => 0usize,
        EncoderPreset::Balanced => 1usize,
        EncoderPreset::Quality => 2usize,
    }
}

pub open spec fn spec_encoder_at(index: usize) -> EncoderPreset {
    if index == 0 {
        EncoderPreset::UltraLowLatency
    } else if index == 2 {
        EncoderPreset::Quality
    } else {
        EncoderPreset::Balanced
    }
}

pub open spec fn spec_audio_index(mode: AudioMode) -> usize {
    match mode {
        AudioMode::Stereo => 0usize,
        AudioMode::VoiceOptimized => 1usize,
    }
}

pub open spec fn spec_audio_at(index: usize) -> AudioMode {
    if index == 1 {
        AudioMode::VoiceOptimized
    } else {
        AudioMode::Stereo
    }
}

/// Index of a frame rate among the editor's choices, or 2 (60 fps) when it
/// is not one of them.
pub open spec fn spec_fps_index(max_fps: u8) -> usize {
    if max_fps == 30 {
        0usize
    } else if max_fps == 45 {
        1usize
    } else if max_fps == 60 {
        2usize
    } else if max_fps == 90 {
        3usize
    } else if max_fps == 120 {
        4usize
    } else {
        2usize
    }
}

/// Index of an encoder preset in the editor's preset list.
pub fn encoder_to_index(preset: EncoderPreset) -> (i: usize)
    ensures
        i == spec_encoder_index(preset),
{
    match preset {
        EncoderPreset::UltraLowLatency => 0,
        EncoderPreset::Balanced => 1,
        EncoderPreset::Quality => 2,
    }
}

/// Encoder preset at an index of the editor's preset list (Balanced for
/// any index other than 0 and 2).
pub fn encoder_from_index(index: usize) -> (p: EncoderPreset)
    ensures
        p == spec_encoder_at(index),
{
    match index {
        0 => EncoderPreset::UltraLowLatency,
        2 => EncoderPreset::Quality,
        _ => EncoderPreset::Balanced,
    }
}

/// Index of an audio mode in the editor's audio list.
pub fn audio_to_index(mode: AudioMode) -> (i: usize)
    ensures
        i == spec_audio_index(mode),
{
    match mode {
        AudioMode::Stereo => 0,
        AudioMode::VoiceOptimized => 1,
    }
}

/// Audio mode at an index of the editor's audio list (Stereo for any index
/// other than 1).
pub fn audio_from_index(index: usize) -> (m: AudioMode)
    ensures
        m == spec_audio_at(index),
{
    match index {
        1 => AudioMode::VoiceOptimized,
        _ => AudioMode::Stereo,
    }
}

/// Frame-rate choices of the profile editor.
pub open spec fn fps_choices() -> Seq<u8> {
    seq![30u8, 45u8, 60u8, 90u8, 120u8]
}

/// Index of `max_fps` among the editor's frame-rate choices, or 2 (60 fps)
/// when it is not one of them.
pub fn fps_to_index(max_fps: u8) -> (i: usize)
    ensures
        i == spec_fps_index(max_fps),
        i < 5,
        fps_choices().contains(max_fps) ==> fps_choices()[i as int] == max_fps
            && forall|j: int| 0 <= j < i ==> fps_choices()[j] != max_fps,
        !fps_choices().contains(max_fps) ==> i == 2,
{
    let choices: [u8; 5] = [30, 45, 60, 90, 120];
    assert(choices@ =~= fps_choices());
    let mut i: usize = 0;
    while i < 5
        invariant
            i <= 5,
            choices@ == fps_choices(),
            forall|j: int| 0 <= j < i ==> fps_choices()[j] != max_fps,
        decreases 5 - i,
    {
        if choices[i] == max_fps {
            return i;
        }
        i = i + 1;
    }
    2
}

/// The editor's encoder, audio and frame-rate choices round-trip through
/// their indices.
pub proof fn lemma_editor_index_roundtrip(preset: EncoderPreset, mode: AudioMode, i: int)
    requires
        0 <= i < 5,
    ensures
        spec_encoder_at(spec_encoder_index(preset)) == preset,
        spec_audio_at(spec_audio_index(mode)) == mode,
        spec_fps_index(fps_choices()[i]) == i,
{
}

} // verus!
