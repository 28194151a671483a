//! The profile editor of the launcher: the list of profiles, the selected
//! one, the draft being edited through the controls, and whether the draft
//! differs from what is saved.

use vstd::prelude::*;
use crate::widgets::EventResponse;
use crate::profiles::{
    apply_profile_entry, audio_from_index, audio_to_index, builtin_profiles, encoder_from_index,
    encoder_to_index, find_profile, fps_choices, lemma_find_profile, fps_to_index, is_builtin_list, spec_audio_at,
    spec_audio_index, spec_encoder_at, spec_encoder_index, spec_fps_index, ProfileConfig,
    ProfileLogEntry, ProfileStore,
};

verus! {

/// The editor's controls, bitrate aside: the chosen frame-rate, encoder and
/// audio entries and the toggles.
#[derive(Debug, Clone, Copy, PartialEq, Eq, Structural)]
pub struct ProfileControls {
    pub fps_index: usize,
    pub encoder_index: usize,
    pub native_scaling: bool,
    pub audio_index: usize,
    pub av1: bool,
    pub exclusive_input: bool,
    pub touch_mode: bool,
    pub auto_reconnect: bool,
}

/// The controls showing `p`.
pub open spec fn controls_of(p: ProfileConfig) -> ProfileControls {
    ProfileControls {
        fps_index: spec_fps_index(p.max_fps),
        encoder_index: spec_encoder_index(p.encoder_preset),
        native_scaling: p.prefer_native_scaling,
        audio_index: spec_audio_index(p.audio_mode),
        av1: p.prefer_av1,
        exclusive_input: p.exclusive_input,
        touch_mode: p.touch_mode,
        auto_reconnect: p.auto_reconnect,
    }
}

/// `draft` with the controls and the bitrate (whole megabits per second)
/// written into it; an out-of-range frame-rate entry keeps the draft's rate.
pub open spec fn applied(draft: ProfileConfig, c: ProfileControls, bitrate_mbps: u64) -> ProfileConfig {
    ProfileConfig {
        bitrate_bps: (bitrate_mbps * 1_000_000) as u64,
        max_fps: if c.fps_index < 5 {
            fps_choices()[c.fps_index as int]
        } else {
            draft.max_fps
        },
        encoder_preset: spec_encoder_at(c.encoder_index),
        prefer_native_scaling: c.native_scaling,
        audio_mode: spec_audio_at(c.audio_index),
        prefer_av1: c.av1,
        exclusive_input: c.exclusive_input,
        touch_mode: c.touch_mode,
        auto_reconnect: c.auto_reconnect,
        ..draft
    }
}

/// Field-wise equality of two profiles, names compared as text.
pub open spec fn same_profile(a: ProfileConfig, b: ProfileConfig) -> bool {
    &&& a.id == b.id
    &&& a.name@ == b.name@
    &&& a.builtin == b.builtin
    &&& a.bitrate_bps == b.bitrate_bps
    &&& a.max_fps == b.max_fps
    &&& a.encoder_preset == b.encoder_preset
    &&& a.prefer_native_scaling == b.prefer_native_scaling
    &&& a.audio_mode == b.audio_mode
    &&& a.prefer_av1 == b.prefer_av1
    &&& a.exclusive_input == b.exclusive_input
    &&& a.touch_mode == b.touch_mode
    &&& a.auto_reconnect == b.auto_reconnect
}

/// `s` with its first profile whose id is `p.id` replaced by `p`.
pub open spec fn replace_first_with_id(s: Seq<ProfileConfig>, p: ProfileConfig) -> Seq<ProfileConfig> {
    let i = find_profile(s, p.id);
    if i >= 0 {
        s.update(i, p)
    } else {
        s
    }
}

fn same_profile_exec(a: &ProfileConfig, b: &ProfileConfig) -> (r: bool)
    ensures
        r == same_profile(*a, *b),
{
    a.id == b.id && a.name == b.name && a.builtin == b.builtin && a.bitrate_bps == b.bitrate_bps
        && a.max_fps == b.max_fps && a.encoder_preset == b.encoder_preset
        && a.prefer_native_scaling == b.prefer_native_scaling && a.audio_mode == b.audio_mode
        && a.prefer_av1 == b.prefer_av1 && a.exclusive_input == b.exclusive_input
        && a.touch_mode == b.touch_mode && a.auto_reconnect == b.auto_reconnect
}

/// The controls showing a profile.
pub fn controls_for(p: &ProfileConfig) -> (c: ProfileControls)
    ensures
        c == controls_of(*p),
{
    ProfileControls {
        fps_index: fps_to_index(p.max_fps),
        encoder_index: encoder_to_index(p.encoder_preset),
        native_scaling: p.prefer_native_scaling,
        audio_index: audio_to_index(p.audio_mode),
        av1: p.prefer_av1,
        exclusive_input: p.exclusive_input,
        touch_mode: p.touch_mode,
        auto_reconnect: p.auto_reconnect,
    }
}

fn copy_profiles(v: &[ProfileConfig]) -> (r: Vec<ProfileConfig>)
    ensures
        r@ == v@,
{
    let mut r: Vec<ProfileConfig> = Vec::new();
    let mut i: usize = 0;
    while i < v.len()
        invariant
            i <= v@.len(),
            r@ == v@.subrange(0, i as int),
        decreases v@.len() - i,
    {
        r.push(v[i].duplicate());
        i = i + 1;
        assert(r@ =~= v@.subrange(0, i as int));
    }
    assert(v@.subrange(0, i as int) =~= v@);
    r
}

/// The profile list, selection, draft and controls of the editor.
pub struct ProfileEditor {
    profiles: Vec<ProfileConfig>,
    selected_index: usize,
    draft: Option<ProfileConfig>,
    dirty: bool,
    controls: ProfileControls,
}

impl ProfileEditor {
    pub closed spec fn list(&self) -> Seq<ProfileConfig> {
        self.profiles@
    }

    pub closed spec fn selected(&self) -> nat {
        self.selected_index as nat
    }

    pub closed spec fn spec_draft(&self) -> Option<ProfileConfig> {
        self.draft
    }

    pub closed spec fn is_dirty(&self) -> bool {
        self.dirty
    }

    pub closed spec fn spec_controls(&self) -> ProfileControls {
        self.controls
    }

    /// The selected profile, if the selection is inside the list.
    pub open spec fn selected_profile(&self) -> Option<ProfileConfig> {
        if self.selected() < self.list().len() {
            Some(self.list()[self.selected() as int])
        } else {
            None
        }
    }

    /// The state after loading the selection: its copy as the draft and its
    /// settings in the controls, nothing unsaved.
    pub open spec fn loaded(&self) -> bool {
        &&& self.spec_draft() == self.selected_profile()
        &&& !self.is_dirty()
        &&& (self.selected_profile() matches Some(p) ==> self.spec_controls() == controls_of(p))
    }

    /// An editor over the built-in profiles with the first one selected.
    pub fn new() -> (e: ProfileEditor)
        ensures
            is_builtin_list(e.list()),
            e.selected() == 0,
            e.loaded(),
    {
        let profiles = builtin_profiles();
        let first = profiles[0].duplicate();
        let controls = controls_for(&first);
        ProfileEditor { profiles, selected_index: 0, draft: Some(first), dirty: false, controls }
    }

    /// Load the selected profile into the draft and the controls.
    fn load_selected(&mut self)
        ensures
            final(self).list() == old(self).list(),
            final(self).selected() == old(self).selected(),
            final(self).loaded(),
            old(self).selected_profile() is None ==> final(self).spec_controls() == old(self).spec_controls(),
    {
        if self.selected_index < self.profiles.len() {
            let p = self.profiles[self.selected_index].duplicate();
            self.controls = controls_for(&p);
            self.draft = Some(p);
        } else {
            self.draft = None;
        }
        self.dirty = false;
    }

    /// Take the store's list (when a store is open), fall back to the
    /// built-ins when there is nothing, keep the selection when it is still
    /// inside the list (else select the first), and load it.
    pub fn reload(&mut self, store: Option<&ProfileStore>)
        ensures
            ({
                let base = match store {
                    Some(st) => st@,
                    None => old(self).list(),
                };
                if base.len() == 0 {
                    is_builtin_list(final(self).list())
                } else {
                    final(self).list() == base
                }
            }),
            final(self).selected() == if old(self).selected() < final(self).list().len() {
                old(self).selected()
            } else {
                0
            },
            final(self).loaded(),
    {
        match store {
            Some(st) => {
                self.profiles = copy_profiles(st.list());
            },
            None => {},
        }
        if self.profiles.len() == 0 {
            self.profiles = builtin_profiles();
        }
        if self.selected_index >= self.profiles.len() {
            self.selected_index = 0;
        }
        self.load_selected();
    }

    /// A click on row `index` of the list: a different row becomes the
    /// selection and is loaded; the current row changes nothing.
    pub fn select(&mut self, index: usize)
        requires
            old(self).loaded(),
        ensures
            final(self).list() == old(self).list(),
            final(self).selected() == index,
            index != old(self).selected() ==> final(self).loaded(),
            index == old(self).selected() ==> final(self).spec_draft() == old(self).spec_draft()
                && final(self).is_dirty() == old(self).is_dirty()
                && final(self).spec_controls() == old(self).spec_controls(),
    {
        if self.selected_index != index {
            self.selected_index = index;
            self.load_selected();
        }
    }

    /// A left click on row `index` of the list: it is consumed, and the row
    /// becomes the selection as `select` says.
    pub fn click_row(&mut self, index: usize) -> (r: EventResponse)
        requires
            old(self).loaded(),
        ensures
            r is Consumed,
            final(self).list() == old(self).list(),
            final(self).selected() == index,
            index != old(self).selected() ==> final(self).loaded(),
            index == old(self).selected() ==> final(self).spec_draft() == old(self).spec_draft()
                && final(self).is_dirty() == old(self).is_dirty()
                && final(self).spec_controls() == old(self).spec_controls(),
    {
        self.select(index);
        EventResponse::Consumed
    }

    /// A control changed: the controls and the bitrate (in whole megabits
    /// per second) are written into the draft, which is then unsaved exactly
    /// when it differs from the selected profile.
    pub fn apply_controls(&mut self, controls: ProfileControls, bitrate_mbps: u64)
        requires
            bitrate_mbps <= u64::MAX / 1_000_000,
        ensures
            final(self).list() == old(self).list(),
            final(self).selected() == old(self).selected(),
            final(self).spec_controls() == controls,
            final(self).spec_draft() == match old(self).spec_draft() {
                Some(d) => Some(applied(d, controls, bitrate_mbps)),
                None => None,
            },
            final(self).is_dirty() == match (final(self).spec_draft(), old(self).selected_profile()) {
                (Some(d), Some(s)) => !same_profile(d, s),
                _ => false,
            },
    {
        self.controls = controls;
        let ghost sel = self.selected_profile();
        match self.draft.take() {
            Some(d) => {
                let max_fps = if controls.fps_index < 5 {
                    let choices: [u8; 5] = [30, 45, 60, 90, 120];
                    assert(choices@ =~= fps_choices());
                    choices[controls.fps_index]
                } else {
                    d.max_fps
                };
                let nd = ProfileConfig {
                    bitrate_bps: bitrate_mbps * 1_000_000,
                    max_fps,
                    encoder_preset: encoder_from_index(controls.encoder_index),
                    prefer_native_scaling: controls.native_scaling,
                    audio_mode: audio_from_index(controls.audio_index),
                    prefer_av1: controls.av1,
                    exclusive_input: controls.exclusive_input,
                    touch_mode: controls.touch_mode,
                    auto_reconnect: controls.auto_reconnect,
                    ..d
                };
                self.dirty = if self.selected_index < self.profiles.len() {
                    !same_profile_exec(&nd, &self.profiles[self.selected_index])
                } else {
                    false
                };
                self.draft = Some(nd);
            },
            None => {
                self.dirty = false;
            },
        }
    }

    /// Save the draft into the open profile store: the profile with the
    /// draft's id is updated, or the draft is added when there is none, and
    /// the store's list is taken afterwards; the list entry with the draft's
    /// id becomes the draft, and nothing is unsaved any more. Returns the
    /// store's log record. Without a draft nothing happens, and nothing
/// happens either when a new draft needs an id and none can be made.
    pub fn save_to_store(&mut self, store: &mut ProfileStore) -> (entry: Option<ProfileLogEntry>)
        ensures
            old(self).spec_draft() is None ==> entry is None && final(self).list() == old(self).list()
                && final(self).spec_draft() is None && final(self).is_dirty() == old(self).is_dirty()
                && final(store)@ == old(store)@,
            old(self).spec_draft() matches Some(d) ==> entry is None ==> {
                &&& d.id == 0 && find_profile(old(store)@, d.id) < 0
                &&& final(store)@ == old(store)@
                &&& final(self).list() == old(self).list()
                &&& final(self).spec_draft() == old(self).spec_draft()
                &&& final(self).is_dirty() == old(self).is_dirty()
            },
            old(self).spec_draft() matches Some(d) ==> (d.id != 0 || find_profile(old(store)@, d.id) >= 0
                ==> entry is Some),
            old(self).spec_draft() matches Some(d) ==> entry is Some ==> {
                &&& final(store)@ == apply_profile_entry(old(store)@, entry.unwrap())
                &&& if find_profile(old(store)@, d.id) >= 0 {
                    entry.unwrap() == (ProfileLogEntry::Update {
                        profile: ProfileConfig {
                            builtin: d.builtin || old(store)@[find_profile(old(store)@, d.id)].builtin,
                            ..d
                        },
                    })
                } else {
                    entry.unwrap() matches ProfileLogEntry::Add { profile } && profile == ProfileConfig {
                        id: profile.id,
                        ..d
                    } && profile.id != 0 && (d.id != 0 ==> profile.id == d.id)
                }
                &&& final(self).spec_draft() == Some(d)
                &&& !final(self).is_dirty()
                &&& final(self).list() == replace_first_with_id(final(store)@, d)
            },
            final(self).selected() == old(self).selected(),
            final(self).spec_controls() == old(self).spec_controls(),
    {
        let d = match &self.draft {
            Some(d) => d.duplicate(),
            None => return None,
        };
        proof {
            lemma_find_profile(store@, d.id);
        }
        let entry = if store.get(d.id).is_some() {
            match store.update(d.id, d.duplicate()) {
                Ok(e) => e,
                Err(_) => {
                    assert(false);
                    return None;
                },
            }
        } else {
            match store.add(d.duplicate()) {
                Ok((_id, e)) => e,
                Err(_) => return None,
            }
        };
        self.profiles = copy_profiles(store.list());
        self.replace_by_id(d.duplicate());
        self.draft = Some(d);
        self.dirty = false;
        Some(entry)
    }

    /// Save the draft when no profile store is open: the list entry with the
    /// draft's id becomes the draft, and nothing is unsaved any more.
    pub fn save_without_store(&mut self)
        ensures
            old(self).spec_draft() is None ==> final(self).list() == old(self).list()
                && final(self).spec_draft() is None && final(self).is_dirty() == old(self).is_dirty(),
            old(self).spec_draft() matches Some(d) ==> final(self).spec_draft() == Some(d)
                && !final(self).is_dirty() && final(self).list() == replace_first_with_id(old(self).list(), d),
            final(self).selected() == old(self).selected(),
            final(self).spec_controls() == old(self).spec_controls(),
    {
        let d = match &self.draft {
            Some(d) => d.duplicate(),
            None => return,
        };
        self.replace_by_id(d.duplicate());
        self.draft = Some(d);
        self.dirty = false;
    }

    fn replace_by_id(&mut self, p: ProfileConfig)
        ensures
            final(self).list() == replace_first_with_id(old(self).list(), p),
            final(self).selected() == old(self).selected(),
            final(self).spec_draft() == old(self).spec_draft(),
            final(self).is_dirty() == old(self).is_dirty(),
            final(self).spec_controls() == old(self).spec_controls(),
    {
        let mut i: usize = 0;
        while i < self.profiles.len()
            invariant
                self.profiles@ == old(self).profiles@,
                self.selected_index == old(self).selected_index,
                self.draft == old(self).draft,
                self.dirty == old(self).dirty,
                self.controls == old(self).controls,
                i <= self.profiles@.len(),
                find_profile(self.profiles@, p.id) == crate::profiles::find_profile_from(
                    self.profiles@,
                    p.id,
                    i as nat,
                ),
            decreases self.profiles@.len() - i,
        {
            if self.profiles[i].id == p.id {
                self.profiles.set(i, p);
                return;
            }
            i = i + 1;
        }
    }

    /// Throw the draft away and load the selection again.
    pub fn discard(&mut self)
        ensures
            final(self).list() == old(self).list(),
            final(self).selected() == old(self).selected(),
            final(self).loaded(),
    {
        self.load_selected();
    }

    /// The profiles listed.
    pub fn profiles(&self) -> (s: &[ProfileConfig])
        ensures
            s@ == self.list(),
    {
        self.profiles.as_slice()
    }

    pub fn selected_index(&self) -> (i: usize)
        ensures
            i == self.selected(),
    {
        self.selected_index
    }

    pub fn draft(&self) -> (d: Option<&ProfileConfig>)
        ensures
            match d {
                Some(p) => self.spec_draft() == Some(*p),
                None => self.spec_draft() is None,
            },
    {
        match &self.draft {
            Some(p) => Some(p),
            None => None,
        }
    }

    pub fn dirty(&self) -> (b: bool)
        ensures
            b == self.is_dirty(),
    {
        self.dirty
    }

    pub fn controls(&self) -> (c: ProfileControls)
        ensures
            c == self.spec_controls(),
    {
        self.controls
    }
}

/// Loading a profile into the controls and writing them back (with its own
/// bitrate in whole megabits) gives the profile back when its frame rate is
/// one the editor offers.
pub proof fn lemma_controls_roundtrip(p: ProfileConfig)
    requires
        fps_choices().contains(p.max_fps),
        p.bitrate_bps % 1_000_000 == 0,
    ensures
        same_profile(applied(p, controls_of(p), (p.bitrate_bps / 1_000_000) as u64), p),
{
    let i = choose|i: int| 0 <= i < 5 && fps_choices()[i] == p.max_fps;
    assert(spec_fps_index(p.max_fps) == i);
}

} // verus!
