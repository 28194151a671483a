//! The stats bar and the quality and connection panels of the in-session
//! overlay: what each holds, and what a left click does once the caller has
//! found the controls under the pointer.

use vstd::prelude::*;
use crate::dropdown::{Dropdown, DropdownHit};
use crate::overlay::{spec_panel_name, stats_bar_click, CapsulePanel};
use crate::switches::Checkbox;
use crate::text::{parse_u8, spec_parse_u8};
use crate::widgets::{EventResponse, UiAction};

verus! {

/// Position of `name` among the profiles a session can report as active
/// ("Gaming", "Coding", "Balanced", "Low Bandwidth"), or -1.
pub open spec fn known_profile_index(name: Seq<char>) -> int {
    if name == "Gaming"@ {
        0
    } else if name == "Coding"@ {
        1
    } else if name == "Balanced"@ {
        2
    } else if name == "Low Bandwidth"@ {
        3
    } else {
        -1
    }
}

fn known_profile_position(name: &str) -> (r: Option<usize>)
    ensures
        match r {
            Some(i) => known_profile_index(name@) == i,
            None => known_profile_index(name@) == -1,
        },
{
    let n = String::from_str(name);
    proof {
        reveal_strlit("Gaming");
        reveal_strlit("Coding");
        reveal_strlit("Balanced");
        reveal_strlit("Low Bandwidth");
    }
    if n == String::from_str("Gaming") {
        Some(0)
    } else if n == String::from_str("Coding") {
        Some(1)
    } else if n == String::from_str("Balanced") {
        Some(2)
    } else if n == String::from_str("Low Bandwidth") {
        Some(3)
    } else {
        None
    }
}

fn two_options(a: &str, b: &str) -> (v: Vec<String>)
    ensures
        v@.len() == 2,
        v@[0]@ == a@,
        v@[1]@ == b@,
{
    let mut v: Vec<String> = Vec::new();
    v.push(String::from_str(a));
    v.push(String::from_str(b));
    v
}

fn three_options(a: &str, b: &str, c: &str) -> (v: Vec<String>)
    ensures
        v@.len() == 3,
        v@[0]@ == a@,
        v@[1]@ == b@,
        v@[2]@ == c@,
{
    let mut v: Vec<String> = Vec::new();
    v.push(String::from_str(a));
    v.push(String::from_str(b));
    v.push(String::from_str(c));
    v
}

/// The bar across the top of the session overlay: its profile drop-down,
/// whether it is pinned and whether it is shown. The figures it paints
/// are drawn by the caller.
pub struct StatsBar {
    profile_dropdown: Dropdown,
    pinned: bool,
    visible: bool,
}

impl StatsBar {
    pub closed spec fn profiles(&self) -> Dropdown {
        self.profile_dropdown
    }

    pub closed spec fn spec_pinned(&self) -> bool {
        self.pinned
    }

    pub closed spec fn spec_visible(&self) -> bool {
        self.visible
    }

    /// A hidden, unpinned bar whose drop-down offers "Gaming" and
    /// "Coding", with "Gaming" chosen.
    pub fn new() -> (b: StatsBar)
        ensures
            b.profiles().spec_options().len() == 2,
            b.profiles().spec_options()[0]@ == "Gaming"@,
            b.profiles().spec_options()[1]@ == "Coding"@,
            b.profiles().spec_selected() == 0,
            !b.profiles().spec_open(),
            !b.spec_pinned(),
            !b.spec_visible(),
    {
        proof {
            reveal_strlit("Gaming");
            reveal_strlit("Coding");
        }
        StatsBar {
            profile_dropdown: Dropdown::new(two_options("Gaming", "Coding"), 0),
            pinned: false,
            visible: false,
        }
    }

    /// Take in the profile that the session reports as active: the
    /// drop-down chooses the entry at that profile's place among the
    /// known profiles, when it has such an entry; otherwise nothing
    /// changes.
    pub fn update_stats(&mut self, active_profile: &str)
        ensures
            final(self).profiles().spec_options() == old(self).profiles().spec_options(),
            final(self).profiles().spec_open() == old(self).profiles().spec_open(),
            final(self).profiles().spec_selected() == if 0 <= known_profile_index(active_profile@)
                < old(self).profiles().spec_options().len() {
                known_profile_index(active_profile@) as nat
            } else {
                old(self).profiles().spec_selected()
            },
            final(self).spec_pinned() == old(self).spec_pinned(),
            final(self).spec_visible() == old(self).spec_visible(),
    {
        match known_profile_position(active_profile) {
            Some(i) => self.profile_dropdown.set_selected(i),
            None => {},
        }
    }

    pub fn show(&mut self)
        ensures
            final(self).spec_visible(),
            final(self).spec_pinned() == old(self).spec_pinned(),
            final(self).profiles() == old(self).profiles(),
    {
        self.visible = true;
    }

    pub fn dismiss(&mut self)
        ensures
            !final(self).spec_visible(),
            final(self).spec_pinned() == old(self).spec_pinned(),
            final(self).profiles() == old(self).profiles(),
    {
        self.visible = false;
    }

    pub fn is_visible(&self) -> (b: bool)
        ensures
            b == self.spec_visible(),
    {
        self.visible
    }

    pub fn is_pinned(&self) -> (b: bool)
        ensures
            b == self.spec_pinned(),
    {
        self.pinned
    }

    pub fn toggle_pin(&mut self)
        ensures
            final(self).spec_pinned() == !old(self).spec_pinned(),
            final(self).spec_visible() == old(self).spec_visible(),
            final(self).profiles() == old(self).profiles(),
    {
        self.pinned = !self.pinned;
    }

    /// The name of the profile the drop-down shows.
    pub fn selected_profile(&self) -> (s: &str)
        ensures
            s@ == self.profiles().spec_selected_text(),
    {
        self.profile_dropdown.selected_text()
    }

    /// A left click. The profile drop-down sees it first: a new choice
    /// there asks to switch to that profile, and a click it takes is
    /// consumed. Otherwise a panel button asks for its panel, a click
    /// elsewhere on the bar is consumed, and one outside is ignored.
    pub fn click(&mut self, profile: DropdownHit, button: Option<CapsulePanel>, inside: bool) -> (r:
        EventResponse)
        ensures
            final(self).profiles().spec_options() == old(self).profiles().spec_options(),
            final(self).profiles().spec_selected() == old(self).profiles().selection_after_click(
                profile.on_header,
                profile.item,
            ),
            final(self).profiles().spec_open() == old(self).profiles().open_after_click(
                profile.on_header,
            ),
            final(self).spec_pinned() == old(self).spec_pinned(),
            final(self).spec_visible() == old(self).spec_visible(),
            if final(self).profiles().spec_selected() != old(self).profiles().spec_selected() {
                r matches EventResponse::Action(UiAction::SwitchProfile(name)) && name@
                    == final(self).profiles().spec_selected_text()
            } else if old(self).profiles().takes_click(profile.on_header) {
                r is Consumed
            } else {
                match button {
                    Some(p) => r matches EventResponse::Action(UiAction::OpenPanel(name)) && name@
                        == spec_panel_name(p),
                    None => if inside {
                        r is Consumed
                    } else {
                        r is Ignored
                    },
                }
            },
    {
        let before = self.profile_dropdown.selected_index();
        let r = self.profile_dropdown.click(profile.on_header, profile.item);
        if self.profile_dropdown.selected_index() != before {
            let name = String::from_str(self.profile_dropdown.selected_text());
            return EventResponse::Action(UiAction::SwitchProfile(name));
        }
        match r {
            EventResponse::Consumed => EventResponse::Consumed,
            _ => stats_bar_click(button, inside),
        }
    }
}

/// Whether two drop-downs offer the same options with the same choice and
/// the same open state.
pub open spec fn same_dropdown(a: Dropdown, b: Dropdown) -> bool {
    &&& a.spec_options() == b.spec_options()
    &&& a.spec_selected() == b.spec_selected()
    &&& a.spec_open() == b.spec_open()
}

/// Whether two check boxes have the same label and state.
pub open spec fn same_checkbox(a: Checkbox, b: Checkbox) -> bool {
    &&& a.spec_label() == b.spec_label()
    &&& a.spec_checked() == b.spec_checked()
}

/// The quality request that a changed control of the quality panel sends:
/// only the field of that control is set.
pub open spec fn quality_request(
    r: EventResponse,
    preset: Option<Seq<char>>,
    max_fps: Option<u8>,
    lossless_text: Option<bool>,
    region_detection: Option<bool>,
) -> bool {
    match r {
        EventResponse::Action(
            UiAction::UpdateQuality { preset: p, max_fps: f, lossless_text: l, region_detection: g },
        ) => {
            &&& match (p, preset) {
                (Some(a), Some(b)) => a@ == b,
                (None, None) => true,
                _ => false,
            }
            &&& f == max_fps
            &&& l == lossless_text
            &&& g == region_detection
        },
        _ => false,
    }
}

fn update_quality(
    preset: Option<String>,
    max_fps: Option<u8>,
    lossless_text: Option<bool>,
    region_detection: Option<bool>,
) -> (r: EventResponse)
    ensures
        quality_request(
            r,
            match preset {
                Some(p) => Some(p@),
                None => None,
            },
            max_fps,
            lossless_text,
            region_detection,
        ),
{
    EventResponse::Action(UiAction::UpdateQuality { preset, max_fps, lossless_text, region_detection })
}

/// The quality panel's controls: the profile, encoder preset and frame-rate
/// drop-downs and the lossless-text and region-detection check boxes. Its
/// bandwidth slider, which works in floating point, stays with the caller,
/// and sees a click only when none of these took it.
pub struct QualityPanel {
    profile_dropdown: Dropdown,
    encoder_dropdown: Dropdown,
    fps_dropdown: Dropdown,
    lossless_checkbox: Checkbox,
    region_checkbox: Checkbox,
    visible: bool,
}

impl QualityPanel {
    pub closed spec fn profiles(&self) -> Dropdown {
        self.profile_dropdown
    }

    pub closed spec fn encoders(&self) -> Dropdown {
        self.encoder_dropdown
    }

    pub closed spec fn frame_rates(&self) -> Dropdown {
        self.fps_dropdown
    }

    pub closed spec fn lossless(&self) -> Checkbox {
        self.lossless_checkbox
    }

    pub closed spec fn region(&self) -> Checkbox {
        self.region_checkbox
    }

    pub closed spec fn spec_visible(&self) -> bool {
        self.visible
    }

    /// A hidden panel offering the profiles "Gaming" and "Coding" (first
    /// chosen), the presets "Ultra Low", "Balanced" and "Quality" and the
    /// frame rates "30", "60" and "120" (middle ones chosen), with both
    /// check boxes clear.
    pub fn new() -> (q: QualityPanel)
        ensures
            q.profiles().spec_options().len() == 2,
            q.profiles().spec_options()[0]@ == "Gaming"@,
            q.profiles().spec_options()[1]@ == "Coding"@,
            q.profiles().spec_selected() == 0,
            q.encoders().spec_options().len() == 3,
            q.encoders().spec_options()[0]@ == "Ultra Low"@,
            q.encoders().spec_options()[1]@ == "Balanced"@,
            q.encoders().spec_options()[2]@ == "Quality"@,
            q.encoders().spec_selected() == 1,
            q.frame_rates().spec_options().len() == 3,
            q.frame_rates().spec_options()[0]@ == "30"@,
            q.frame_rates().spec_options()[1]@ == "60"@,
            q.frame_rates().spec_options()[2]@ == "120"@,
            q.frame_rates().spec_selected() == 1,
            !q.profiles().spec_open(),
            !q.encoders().spec_open(),
            !q.frame_rates().spec_open(),
            q.lossless().spec_label() == "Lossless text"@,
            !q.lossless().spec_checked(),
            q.region().spec_label() == "Region detection"@,
            !q.region().spec_checked(),
            !q.spec_visible(),
    {
        QualityPanel {
            profile_dropdown: Dropdown::new(two_options("Gaming", "Coding"), 0),
            encoder_dropdown: Dropdown::new(three_options("Ultra Low", "Balanced", "Quality"), 1),
            fps_dropdown: Dropdown::new(three_options("30", "60", "120"), 1),
            lossless_checkbox: Checkbox::new("Lossless text", false),
            region_checkbox: Checkbox::new("Region detection", false),
            visible: false,
        }
    }

    pub fn show(&mut self)
        ensures
            final(self).spec_visible(),
    {
        self.visible = true;
    }

    pub fn dismiss(&mut self)
        ensures
            !final(self).spec_visible(),
    {
        self.visible = false;
    }

    pub fn is_visible(&self) -> (b: bool)
        ensures
            b == self.spec_visible(),
    {
        self.visible
    }

    /// A left click, offered to the controls in order (profile, preset,
    /// frame rate, lossless text, region detection) until one takes it.
    /// A drop-down whose choice changes sends that choice (the profile and
    /// preset by name, the frame rate as read into a number); a check box
    /// that flips sends its new state; a control that takes the click
    /// without a change consumes it; when none takes it, it is ignored.
    pub fn click(
        &mut self,
        profile: DropdownHit,
        encoder: DropdownHit,
        fps: DropdownHit,
        on_lossless: bool,
        on_region: bool,
    ) -> (r: EventResponse)
        ensures
            final(self).spec_visible() == old(self).spec_visible(),
            final(self).profiles().spec_options() == old(self).profiles().spec_options(),
            final(self).encoders().spec_options() == old(self).encoders().spec_options(),
            final(self).frame_rates().spec_options() == old(self).frame_rates().spec_options(),
            final(self).lossless().spec_label() == old(self).lossless().spec_label(),
            final(self).region().spec_label() == old(self).region().spec_label(),
            if old(self).profiles().takes_click(profile.on_header) {
                &&& final(self).profiles().spec_selected() == old(self).profiles().selection_after_click(
                    profile.on_header,
                    profile.item,
                )
                &&& final(self).profiles().spec_open() == old(self).profiles().open_after_click(
                    profile.on_header,
                )
                &&& same_dropdown(final(self).encoders(), old(self).encoders())
                &&& same_dropdown(final(self).frame_rates(), old(self).frame_rates())
                &&& same_checkbox(final(self).lossless(), old(self).lossless())
                &&& same_checkbox(final(self).region(), old(self).region())
                &&& if final(self).profiles().spec_selected() != old(self).profiles().spec_selected() {
                    quality_request(
                        r,
                        Some(final(self).profiles().spec_selected_text()),
                        None,
                        None,
                        None,
                    )
                } else {
                    r is Consumed
                }
            } else if old(self).encoders().takes_click(encoder.on_header) {
                &&& same_dropdown(final(self).profiles(), old(self).profiles())
                &&& final(self).encoders().spec_selected() == old(self).encoders().selection_after_click(
                    encoder.on_header,
                    encoder.item,
                )
                &&& final(self).encoders().spec_open() == old(self).encoders().open_after_click(
                    encoder.on_header,
                )
                &&& same_dropdown(final(self).frame_rates(), old(self).frame_rates())
                &&& same_checkbox(final(self).lossless(), old(self).lossless())
                &&& same_checkbox(final(self).region(), old(self).region())
                &&& if final(self).encoders().spec_selected() != old(self).encoders().spec_selected() {
                    quality_request(
                        r,
                        Some(final(self).encoders().spec_selected_text()),
                        None,
                        None,
                        None,
                    )
                } else {
                    r is Consumed
                }
            } else if old(self).frame_rates().takes_click(fps.on_header) {
                &&& same_dropdown(final(self).profiles(), old(self).profiles())
                &&& same_dropdown(final(self).encoders(), old(self).encoders())
                &&& final(self).frame_rates().spec_selected()
                    == old(self).frame_rates().selection_after_click(fps.on_header, fps.item)
                &&& final(self).frame_rates().spec_open() == old(self).frame_rates().open_after_click(
                    fps.on_header,
                )
                &&& same_checkbox(final(self).lossless(), old(self).lossless())
                &&& same_checkbox(final(self).region(), old(self).region())
                &&& if final(self).frame_rates().spec_selected()
                    != old(self).frame_rates().spec_selected() {
                    quality_request(
                        r,
                        None,
                        spec_parse_u8(final(self).frame_rates().spec_selected_text()),
                        None,
                        None,
                    )
                } else {
                    r is Consumed
                }
            } else if on_lossless {
                &&& same_dropdown(final(self).profiles(), old(self).profiles())
                &&& same_dropdown(final(self).encoders(), old(self).encoders())
                &&& same_dropdown(final(self).frame_rates(), old(self).frame_rates())
                &&& final(self).lossless().spec_checked() == !old(self).lossless().spec_checked()
                &&& same_checkbox(final(self).region(), old(self).region())
                &&& quality_request(r, None, None, Some(final(self).lossless().spec_checked()), None)
            } else if on_region {
                &&& same_dropdown(final(self).profiles(), old(self).profiles())
                &&& same_dropdown(final(self).encoders(), old(self).encoders())
                &&& same_dropdown(final(self).frame_rates(), old(self).frame_rates())
                &&& same_checkbox(final(self).lossless(), old(self).lossless())
                &&& final(self).region().spec_checked() == !old(self).region().spec_checked()
                &&& quality_request(r, None, None, None, Some(final(self).region().spec_checked()))
            } else {
                &&& same_dropdown(final(self).profiles(), old(self).profiles())
                &&& same_dropdown(final(self).encoders(), old(self).encoders())
                &&& same_dropdown(final(self).frame_rates(), old(self).frame_rates())
                &&& same_checkbox(final(self).lossless(), old(self).lossless())
                &&& same_checkbox(final(self).region(), old(self).region())
                &&& r is Ignored
            },
    {
        let before = self.profile_dropdown.selected_index();
        let r = self.profile_dropdown.click(profile.on_header, profile.item);
        if self.profile_dropdown.selected_index() != before {
            let preset = String::from_str(self.profile_dropdown.selected_text());
            return update_quality(Some(preset), None, None, None);
        }
        if matches!(r, EventResponse::Consumed) {
            return EventResponse::Consumed;
        }
        let before = self.encoder_dropdown.selected_index();
        let r = self.encoder_dropdown.click(encoder.on_header, encoder.item);
        if self.encoder_dropdown.selected_index() != before {
            let preset = String::from_str(self.encoder_dropdown.selected_text());
            return update_quality(Some(preset), None, None, None);
        }
        if matches!(r, EventResponse::Consumed) {
            return EventResponse::Consumed;
        }
        let before = self.fps_dropdown.selected_index();
        let r = self.fps_dropdown.click(fps.on_header, fps.item);
        if self.fps_dropdown.selected_index() != before {
            let max_fps = parse_u8(self.fps_dropdown.selected_text());
            return update_quality(None, max_fps, None, None);
        }
        if matches!(r, EventResponse::Consumed) {
            return EventResponse::Consumed;
        }
        let r = self.lossless_checkbox.click(on_lossless);
        if matches!(r, EventResponse::Consumed) {
            return update_quality(None, None, Some(self.lossless_checkbox.is_checked()), None);
        }
        let r = self.region_checkbox.click(on_region);
        if matches!(r, EventResponse::Consumed) {
            return update_quality(None, None, None, Some(self.region_checkbox.is_checked()));
        }
        EventResponse::Ignored
    }
}

/// The texts of the connection panel's lines.
pub open spec fn server_line(server: Seq<char>) -> Seq<char> {
    "Server: "@ + server
}

pub open spec fn address_line(address: Seq<char>) -> Seq<char> {
    "Address: "@ + address
}

pub open spec fn encryption_line(encrypted: bool) -> Seq<char> {
    if encrypted {
        "Encryption: Noise (E2E)"@
    } else {
        "Encryption: None"@
    }
}

pub open spec fn session_line(duration: Seq<char>) -> Seq<char> {
    "Session: "@ + duration
}

pub open spec fn client_id_line(client_id: Seq<char>) -> Seq<char> {
    "Client ID: "@ + client_id
}

fn prefixed(prefix: &str, value: &str) -> (s: String)
    ensures
        s@ == prefix@ + value@,
{
    let mut s = String::from_str(prefix);
    s.append(value);
    s
}

/// The connection panel: five lines about the session and whether it is
/// shown. Its only control is the disconnect button.
pub struct ConnPanel {
    server_label: String,
    address_label: String,
    encryption_label: String,
    session_label: String,
    client_id_label: String,
    visible: bool,
}

impl ConnPanel {
    pub closed spec fn lines(&self) -> Seq<Seq<char>> {
        seq![
            self.server_label@,
            self.address_label@,
            self.encryption_label@,
            self.session_label@,
            self.client_id_label@,
        ]
    }

    pub closed spec fn spec_visible(&self) -> bool {
        self.visible
    }

    /// A hidden panel whose lines show a dash for every value.
    pub fn new() -> (c: ConnPanel)
        ensures
            c.lines() == seq![
                server_line("\u{2014}"@),
                address_line("\u{2014}"@),
                "Encryption: \u{2014}"@,
                session_line("\u{2014}"@),
                client_id_line("\u{2014}"@),
            ],
            !c.spec_visible(),
    {
        proof {
            reveal_strlit("\u{2014}");
            reveal_strlit("Server: \u{2014}");
            reveal_strlit("Server: ");
            reveal_strlit("Address: \u{2014}");
            reveal_strlit("Address: ");
            reveal_strlit("Session: \u{2014}");
            reveal_strlit("Session: ");
            reveal_strlit("Client ID: \u{2014}");
            reveal_strlit("Client ID: ");
        }
        let c = ConnPanel {
            server_label: String::from_str("Server: \u{2014}"),
            address_label: String::from_str("Address: \u{2014}"),
            encryption_label: String::from_str("Encryption: \u{2014}"),
            session_label: String::from_str("Session: \u{2014}"),
            client_id_label: String::from_str("Client ID: \u{2014}"),
            visible: false,
        };
        assert(c.server_label@ =~= server_line("\u{2014}"@));
        assert(c.address_label@ =~= address_line("\u{2014}"@));
        assert(c.session_label@ =~= session_line("\u{2014}"@));
        assert(c.client_id_label@ =~= client_id_line("\u{2014}"@));
        assert(c.lines() =~= seq![
            server_line("\u{2014}"@),
            address_line("\u{2014}"@),
            "Encryption: \u{2014}"@,
            session_line("\u{2014}"@),
            client_id_line("\u{2014}"@),
        ]);
        c
    }

    /// Show the server's name and address, whether the session is
    /// encrypted, how long it has run and this client's id.
    pub fn update(
        &mut self,
        server: &str,
        address: &str,
        encrypted: bool,
        session_duration: &str,
        client_id: &str,
    )
        ensures
            final(self).lines() == seq![
                server_line(server@),
                address_line(address@),
                encryption_line(encrypted),
                session_line(session_duration@),
                client_id_line(client_id@),
            ],
            final(self).spec_visible() == old(self).spec_visible(),
    {
        self.server_label = prefixed("Server: ", server);
        self.address_label = prefixed("Address: ", address);
        self.encryption_label = if encrypted {
            String::from_str("Encryption: Noise (E2E)")
        } else {
            String::from_str("Encryption: None")
        };
        self.session_label = prefixed("Session: ", session_duration);
        self.client_id_label = prefixed("Client ID: ", client_id);
        assert(self.lines() =~= seq![
            server_line(server@),
            address_line(address@),
            encryption_line(encrypted),
            session_line(session_duration@),
            client_id_line(client_id@),
        ]);
    }

    /// The panel's lines, top to bottom.
    pub fn line_texts(&self) -> (v: Vec<String>)
        ensures
            v@.len() == 5,
            forall|i: int| 0 <= i < 5 ==> #[trigger] v@[i]@ == self.lines()[i],
    {
        let mut v: Vec<String> = Vec::new();
        v.push(self.server_label.clone());
        v.push(self.address_label.clone());
        v.push(self.encryption_label.clone());
        v.push(self.session_label.clone());
        v.push(self.client_id_label.clone());
        v
    }

    pub fn show(&mut self)
        ensures
            final(self).spec_visible(),
            final(self).lines() == old(self).lines(),
    {
        self.visible = true;
    }

    pub fn dismiss(&mut self)
        ensures
            !final(self).spec_visible(),
            final(self).lines() == old(self).lines(),
    {
        self.visible = false;
    }

    pub fn is_visible(&self) -> (b: bool)
        ensures
            b == self.spec_visible(),
    {
        self.visible
    }

    /// A left click: on the disconnect button it asks to disconnect,
    /// elsewhere on the panel it is consumed, outside it is ignored.
    pub fn click(&self, on_disconnect: bool, inside: bool) -> (r: EventResponse)
        ensures
            on_disconnect ==> r matches EventResponse::Action(UiAction::Disconnect),
            !on_disconnect && inside ==> r is Consumed,
            !on_disconnect && !inside ==> r is Ignored,
    {
        if on_disconnect {
            EventResponse::Action(UiAction::Disconnect)
        } else if inside {
            EventResponse::Consumed
        } else {
            EventResponse::Ignored
        }
    }
}

} // verus!
