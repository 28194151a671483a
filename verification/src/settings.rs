//! The launcher's settings page: its controls, how preferences fill them,
//! and what a click changes and asks to be saved.

use vstd::prelude::*;
use crate::config::UserPrefs;
use crate::dropdown::{
    prefs_from_controls, profile_dropdown_for_names, select_preferred_profile, Dropdown, DropdownHit,
    option_index,
};
use crate::switches::Toggle;
use crate::widgets::EventResponse;

verus! {

/// Whether two drop-downs offer the same options with the same choice and
/// open state.
pub open spec fn unchanged(a: Dropdown, b: Dropdown) -> bool {
    &&& a.spec_options() == b.spec_options()
    &&& a.spec_selected() == b.spec_selected()
    &&& a.spec_open() == b.spec_open()
}

/// Whether drop-down `a` is `b` after a left click with hit `h`.
pub open spec fn clicked_dropdown(a: Dropdown, b: Dropdown, h: DropdownHit) -> bool {
    &&& a.spec_options() == b.spec_options()
    &&& a.spec_selected() == b.selection_after_click(h.on_header, h.item)
    &&& a.spec_open() == b.open_after_click(h.on_header)
}

fn options3(a: &str, b: &str, c: &str) -> (v: Vec<String>)
    ensures
        v@.len() == 3,
        v@[0]@ == a@,
        v@[1]@ == b@,
        v@[2]@ == c@,
{
    let mut v: Vec<String> = Vec::new();
    v.push(String::from_str(a));
    v.push(String::from_str(b));
    v.push(String::from_str(c));
    v
}

/// The settings page: the identity file and version it shows, whether
/// preferences were handed to it (changes are then to be saved), the
/// default-profile choice, the exclusive-keyboard and relative-mouse
/// switches, and the audio output and microphone choices.
pub struct SettingsPanel {
    identity_path: String,
    version: String,
    prefs_attached: bool,
    default_profile_dropdown: Dropdown,
    exclusive_keyboard_toggle: Toggle,
    relative_mouse_toggle: Toggle,
    audio_output_dropdown: Dropdown,
    mic_dropdown: Dropdown,
}

impl SettingsPanel {
    pub closed spec fn spec_identity_path(&self) -> Seq<char> {
        self.identity_path@
    }

    pub closed spec fn spec_version(&self) -> Seq<char> {
        self.version@
    }

    pub closed spec fn attached(&self) -> bool {
        self.prefs_attached
    }

    pub closed spec fn profile(&self) -> Dropdown {
        self.default_profile_dropdown
    }

    pub closed spec fn exclusive_keyboard(&self) -> bool {
        self.exclusive_keyboard_toggle.spec_on()
    }

    pub closed spec fn relative_mouse(&self) -> bool {
        self.relative_mouse_toggle.spec_on()
    }

    pub closed spec fn audio_output(&self) -> Dropdown {
        self.audio_output_dropdown
    }

    pub closed spec fn microphone(&self) -> Dropdown {
        self.mic_dropdown
    }

    /// The preferences the controls hold.
    pub open spec fn held_prefs(&self, p: UserPrefs) -> bool {
        &&& p.default_profile@ == self.profile().spec_selected_text()
        &&& p.exclusive_keyboard == self.exclusive_keyboard()
        &&& p.relative_mouse == self.relative_mouse()
    }

    /// The page for an identity file and version: profiles "Gaming",
    /// "Coding", "Balanced" and "Low Bandwidth" with "Balanced" chosen,
    /// exclusive keyboard on, relative mouse off, the first audio output
    /// and microphone chosen, and no preferences attached.
    pub fn new(identity_path: String, version: String) -> (p: SettingsPanel)
        ensures
            p.spec_identity_path() == identity_path@,
            p.spec_version() == version@,
            !p.attached(),
            p.profile().spec_options().len() == 4,
            p.profile().spec_options()[0]@ == "Gaming"@,
            p.profile().spec_options()[1]@ == "Coding"@,
            p.profile().spec_options()[2]@ == "Balanced"@,
            p.profile().spec_options()[3]@ == "Low Bandwidth"@,
            p.profile().spec_selected() == 2,
            !p.profile().spec_open(),
            p.exclusive_keyboard(),
            !p.relative_mouse(),
            p.audio_output().spec_options().len() == 3,
            p.audio_output().spec_options()[0]@ == "System Default"@,
            p.audio_output().spec_selected() == 0,
            p.microphone().spec_options().len() == 3,
            p.microphone().spec_options()[0]@ == "System Default"@,
            p.microphone().spec_selected() == 0,
    {
        let mut profiles: Vec<String> = Vec::new();
        profiles.push(String::from_str("Gaming"));
        profiles.push(String::from_str("Coding"));
        profiles.push(String::from_str("Balanced"));
        profiles.push(String::from_str("Low Bandwidth"));
        SettingsPanel {
            identity_path,
            version,
            prefs_attached: false,
            default_profile_dropdown: Dropdown::new(profiles, 2),
            exclusive_keyboard_toggle: Toggle::new(true),
            relative_mouse_toggle: Toggle::new(false),
            audio_output_dropdown: Dropdown::new(
                options3("System Default", "Primary Speakers", "Headset"),
                0,
            ),
            mic_dropdown: Dropdown::new(options3("System Default", "Built-in Mic", "USB Interface"), 0),
        }
    }

    pub fn identity_path(&self) -> (s: &str)
        ensures
            s@ == self.spec_identity_path(),
    {
        self.identity_path.as_str()
    }

    pub fn version(&self) -> (s: &str)
        ensures
            s@ == self.spec_version(),
    {
        self.version.as_str()
    }

    pub fn default_profile(&self) -> (d: &Dropdown)
        ensures
            *d == self.profile(),
    {
        &self.default_profile_dropdown
    }

    /// Offer the given profile names (see `profile_dropdown_for_names`).
    pub fn set_profile_names(&mut self, names: Vec<String>)
        ensures
            names@.len() > 0 ==> final(self).profile().spec_options() == names@,
            names@.len() == 0 ==> final(self).profile().spec_options().len() == 1
                && final(self).profile().spec_options()[0]@ == "Balanced"@,
            !final(self).profile().spec_open(),
            final(self).profile().spec_selected() == if option_index(
                final(self).profile().spec_options(),
                old(self).profile().spec_selected_text(),
            ) >= 0 {
                option_index(final(self).profile().spec_options(), old(self).profile().spec_selected_text()) as nat
            } else if option_index(final(self).profile().spec_options(), "Balanced"@) >= 0 {
                option_index(final(self).profile().spec_options(), "Balanced"@) as nat
            } else {
                0
            },
            final(self).attached() == old(self).attached(),
            final(self).exclusive_keyboard() == old(self).exclusive_keyboard(),
            final(self).relative_mouse() == old(self).relative_mouse(),
            final(self).audio_output() == old(self).audio_output(),
            final(self).microphone() == old(self).microphone(),
            final(self).spec_identity_path() == old(self).spec_identity_path(),
            final(self).spec_version() == old(self).spec_version(),
    {
        self.default_profile_dropdown = profile_dropdown_for_names(names, &self.default_profile_dropdown);
    }

    /// Attach preferences: the controls take their values (the default
    /// profile by name, else "Balanced" when offered), and later changes
    /// are to be saved.
    pub fn set_user_prefs(&mut self, prefs: &UserPrefs)
        ensures
            final(self).attached(),
            final(self).profile().spec_options() == old(self).profile().spec_options(),
            final(self).profile().spec_open() == old(self).profile().spec_open(),
            final(self).profile().spec_selected() == if option_index(
                old(self).profile().spec_options(),
                prefs.default_profile@,
            ) >= 0 {
                option_index(old(self).profile().spec_options(), prefs.default_profile@) as nat
            } else if option_index(old(self).profile().spec_options(), "Balanced"@) >= 0 {
                option_index(old(self).profile().spec_options(), "Balanced"@) as nat
            } else {
                old(self).profile().spec_selected()
            },
            final(self).exclusive_keyboard() == prefs.exclusive_keyboard,
            final(self).relative_mouse() == prefs.relative_mouse,
            final(self).audio_output() == old(self).audio_output(),
            final(self).microphone() == old(self).microphone(),
            final(self).spec_identity_path() == old(self).spec_identity_path(),
            final(self).spec_version() == old(self).spec_version(),
    {
        self.prefs_attached = true;
        select_preferred_profile(&mut self.default_profile_dropdown, prefs);
        self.exclusive_keyboard_toggle.set_on(prefs.exclusive_keyboard);
        self.relative_mouse_toggle.set_on(prefs.relative_mouse);
    }

    /// The preferences the controls hold.
    pub fn prefs(&self) -> (p: UserPrefs)
        ensures
            self.held_prefs(p),
    {
        prefs_from_controls(
            &self.default_profile_dropdown,
            self.exclusive_keyboard_toggle.is_on(),
            self.relative_mouse_toggle.is_on(),
        )
    }

    fn to_save(&self) -> (s: Option<UserPrefs>)
        ensures
            match s {
                Some(p) => self.attached() && self.held_prefs(p),
                None => !self.attached(),
            },
    {
        if self.prefs_attached {
            Some(self.prefs())
        } else {
            None
        }
    }

    /// A left click, offered to the controls in order (default profile,
    /// exclusive keyboard, relative mouse, audio output, microphone) until
    /// one takes it. A new default profile or a flipped switch consumes the
    /// click and, with preferences attached, gives the preferences to save;
    /// a control that takes the click without such a change consumes it;
    /// when none takes it, it is ignored.
    pub fn click(
        &mut self,
        profile: DropdownHit,
        on_exclusive: bool,
        on_relative: bool,
        audio: DropdownHit,
        mic: DropdownHit,
    ) -> (r: (EventResponse, Option<UserPrefs>))
        ensures
            final(self).attached() == old(self).attached(),
            final(self).spec_identity_path() == old(self).spec_identity_path(),
            final(self).spec_version() == old(self).spec_version(),
            ({
                let (resp, save) = r;
                let changed_save = match save {
                    Some(p) => final(self).attached() && final(self).held_prefs(p),
                    None => !final(self).attached(),
                };
                if old(self).profile().takes_click(profile.on_header) {
                    &&& clicked_dropdown(final(self).profile(), old(self).profile(), profile)
                    &&& final(self).exclusive_keyboard() == old(self).exclusive_keyboard()
                    &&& final(self).relative_mouse() == old(self).relative_mouse()
                    &&& unchanged(final(self).audio_output(), old(self).audio_output())
                    &&& unchanged(final(self).microphone(), old(self).microphone())
                    &&& resp is Consumed
                    &&& if final(self).profile().spec_selected() != old(self).profile().spec_selected() {
                        changed_save
                    } else {
                        save is None
                    }
                } else if on_exclusive {
                    &&& unchanged(final(self).profile(), old(self).profile())
                    &&& final(self).exclusive_keyboard() == !old(self).exclusive_keyboard()
                    &&& final(self).relative_mouse() == old(self).relative_mouse()
                    &&& unchanged(final(self).audio_output(), old(self).audio_output())
                    &&& unchanged(final(self).microphone(), old(self).microphone())
                    &&& resp is Consumed
                    &&& changed_save
                } else if on_relative {
                    &&& unchanged(final(self).profile(), old(self).profile())
                    &&& final(self).exclusive_keyboard() == old(self).exclusive_keyboard()
                    &&& final(self).relative_mouse() == !old(self).relative_mouse()
                    &&& unchanged(final(self).audio_output(), old(self).audio_output())
                    &&& unchanged(final(self).microphone(), old(self).microphone())
                    &&& resp is Consumed
                    &&& changed_save
                } else if old(self).audio_output().takes_click(audio.on_header) {
                    &&& unchanged(final(self).profile(), old(self).profile())
                    &&& final(self).exclusive_keyboard() == old(self).exclusive_keyboard()
                    &&& final(self).relative_mouse() == old(self).relative_mouse()
                    &&& clicked_dropdown(final(self).audio_output(), old(self).audio_output(), audio)
                    &&& unchanged(final(self).microphone(), old(self).microphone())
                    &&& resp is Consumed
                    &&& save is None
                } else {
                    &&& unchanged(final(self).profile(), old(self).profile())
                    &&& final(self).exclusive_keyboard() == old(self).exclusive_keyboard()
                    &&& final(self).relative_mouse() == old(self).relative_mouse()
                    &&& unchanged(final(self).audio_output(), old(self).audio_output())
                    &&& clicked_dropdown(final(self).microphone(), old(self).microphone(), mic)
                    &&& if old(self).microphone().takes_click(mic.on_header) {
                        resp is Consumed
                    } else {
                        resp is Ignored
                    }
                    &&& save is None
                }
            }),
    {
        let before = self.default_profile_dropdown.selected_index();
        let resp = self.default_profile_dropdown.click(profile.on_header, profile.item);
        if self.default_profile_dropdown.selected_index() != before {
            return (EventResponse::Consumed, self.to_save());
        }
        if matches!(resp, EventResponse::Consumed) {
            return (resp, None);
        }
        let resp = self.exclusive_keyboard_toggle.click(on_exclusive);
        if matches!(resp, EventResponse::Consumed) {
            return (resp, self.to_save());
        }
        let resp = self.relative_mouse_toggle.click(on_relative);
        if matches!(resp, EventResponse::Consumed) {
            return (resp, self.to_save());
        }
        let resp = self.audio_output_dropdown.click(audio.on_header, audio.item);
        if matches!(resp, EventResponse::Consumed) {
            return (resp, None);
        }
        let resp = self.mic_dropdown.click(mic.on_header, mic.item);
        (resp, None)
    }
}

} // verus!
