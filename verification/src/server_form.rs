//! The add/edit server form: what it submits, how a saved server fills it,
//! and how a submission becomes a change to the server store.

use vstd::prelude::*;
use crate::platform::uuid_version;
use crate::servers::{
    accent_rgb, accent_hue, apply_server_entry, find_server, lemma_find_server, SavedServer,
    ServerEdit, ServerLogEntry, ServerStore,
};
use vstd::utf8::encode_utf8;
use crate::dropdown::{Dropdown, DropdownHit};
use crate::text_input::{edited_by_key, is_editing_key, typed, TextInput};
use crate::widgets::{EventResponse, KeyCode, UiAction};

verus! {

/// Whether `c` has the Unicode White_Space property: U+0009 to U+000D,
/// U+0020, U+0085, U+00A0, U+1680, U+2000 to U+200A, U+2028, U+2029,
/// U+202F, U+205F and U+3000.
pub open spec fn is_white_space(c: char) -> bool {
    let u = c as u32;
    ||| 0x9 <= u <= 0xd
    ||| u == 0x20
    ||| u == 0x85
    ||| u == 0xa0
    ||| u == 0x1680
    ||| 0x2000 <= u <= 0x200a
    ||| u == 0x2028
    ||| u == 0x2029
    ||| u == 0x202f
    ||| u == 0x205f
    ||| u == 0x3000
}

/// How many white-space characters `s` starts with.
pub open spec fn leading_white_space(s: Seq<char>) -> nat
    decreases s.len(),
{
    if s.len() > 0 && is_white_space(s[0]) {
        1 + leading_white_space(s.drop_first())
    } else {
        0
    }
}

/// How many white-space characters `s` ends with.
pub open spec fn trailing_white_space(s: Seq<char>) -> nat
    decreases s.len(),
{
    if s.len() > 0 && is_white_space(s.last()) {
        1 + trailing_white_space(s.drop_last())
    } else {
        0
    }
}

/// `s` without its leading and trailing white space.
pub open spec fn trimmed(s: Seq<char>) -> Seq<char> {
    let t = s.skip(leading_white_space(s) as int);
    t.take(t.len() - trailing_white_space(t))
}

/// `str::trim`: the text without leading and trailing characters that have
/// the Unicode White_Space property.
#[verifier::external_body]
fn trim_str(s: &str) -> (r: &str)
    ensures
        r@ == trimmed(s@),
{
    s.trim()
}

/// The profiles the form offers, in order.
pub open spec fn form_profile_options() -> Seq<Seq<char>> {
    seq!["Gaming"@, "Coding"@]
}

/// What the form submits: name, address, the Noise key (absent when its
/// field is empty) and the chosen profile.
#[derive(Debug, Clone)]
pub struct ServerFormData {
    pub display_name: String,
    pub address: String,
    pub noise_key: Option<String>,
    pub default_profile: String,
}

/// Why a submission was not saved.
#[derive(Debug, Clone, Copy, PartialEq, Eq, Structural)]
pub enum FormError {
    /// The name or the address is empty once trimmed.
    MissingNameOrAddress,
    /// No id could be made for a new server (the clock reads before the
    /// Unix epoch or the system's random source failed).
    NoFreshId,
}

/// The submission for the given field texts and profile choice.
pub fn form_data(name: &str, address: &str, noise_key: &str, profile_index: usize) -> (d: ServerFormData)
    requires
        profile_index < 2,
    ensures
        d.display_name@ == name@,
        d.address@ == address@,
        match d.noise_key {
            Some(k) => noise_key@.len() > 0 && k@ == noise_key@,
            None => noise_key@.len() == 0,
        },
        d.default_profile@ == form_profile_options()[profile_index as int],
{
    proof {
        reveal_strlit("Gaming");
        reveal_strlit("Coding");
    }
    ServerFormData {
        display_name: String::from_str(name),
        address: String::from_str(address),
        noise_key: if noise_key.is_empty() {
            None
        } else {
            Some(String::from_str(noise_key))
        },
        default_profile: if profile_index == 0 {
            String::from_str("Gaming")
        } else {
            String::from_str("Coding")
        },
    }
}

/// The profile choice shown when editing a server: the position of its
/// default profile among the options, or `current` when it is not one.
pub fn editing_profile_index(default_profile: &str, current: usize) -> (i: usize)
    ensures
        i == if default_profile@ == form_profile_options()[0] {
            0
        } else if default_profile@ == form_profile_options()[1] {
            1
        } else {
            current
        },
{
    proof {
        reveal_strlit("Gaming");
        reveal_strlit("Coding");
    }
    let p = String::from_str(default_profile);
    if p == String::from_str("Gaming") {
        0
    } else if p == String::from_str("Coding") {
        1
    } else {
        current
    }
}

/// Whether `server` is `before` with the submitted trimmed name and address,
/// key and profile, everything else kept.
pub open spec fn is_submitted_update(server: SavedServer, before: SavedServer, data: ServerFormData) -> bool {
    &&& server.display_name@ == trimmed(data.display_name@)
    &&& server.address@ == trimmed(data.address@)
    &&& server.noise_public_key == data.noise_key
    &&& server.default_profile == data.default_profile
    &&& server.id == before.id
    &&& server.created_at == before.created_at
    &&& server.accent_color == before.accent_color
    &&& server.last_connected == before.last_connected
    &&& server.last_resolution == before.last_resolution
    &&& server.last_codec == before.last_codec
}

/// Whether `server` is a new entry for the submission: a version-7 id, the
/// trimmed name and address, the key and profile, the accent colour of the
/// trimmed name, and no connection history.
pub open spec fn is_submitted_new(server: SavedServer, data: ServerFormData) -> bool {
    &&& uuid_version(server.id) == 7
    &&& server.display_name@ == trimmed(data.display_name@)
    &&& server.address@ == trimmed(data.address@)
    &&& server.noise_public_key == data.noise_key
    &&& server.default_profile == data.default_profile
    &&& server.accent_color@ == accent_rgb(accent_hue(encode_utf8(trimmed(data.display_name@))))
    &&& server.last_connected is None
    &&& server.last_resolution is None
    &&& server.last_codec is None
}

/// The outcome of saving a submission against a store holding `before`
/// and then `after`.
pub open spec fn save_outcome(
    before: Seq<SavedServer>,
    after: Seq<SavedServer>,
    editing_id: Option<u128>,
    data: ServerFormData,
    r: Result<Option<ServerLogEntry>, FormError>,
) -> bool {
    if trimmed(data.display_name@).len() == 0 || trimmed(data.address@).len() == 0 {
        r == Err::<Option<ServerLogEntry>, FormError>(FormError::MissingNameOrAddress) && after == before
    } else {
        match r {
            Ok(e) => match editing_id {
                Some(id) => if find_server(before, id) >= 0 {
                    match e {
                        Some(ServerLogEntry::Update { server }) => is_submitted_update(
                            server,
                            before[find_server(before, id)],
                            data,
                        ) && after == apply_server_entry(before, ServerLogEntry::Update { server }),
                        _ => false,
                    }
                } else {
                    e is None && after == before
                },
                None => match e {
                    Some(ServerLogEntry::Add { server }) => is_submitted_new(server, data) && after
                        == apply_server_entry(before, ServerLogEntry::Add { server }),
                    _ => false,
                },
            },
            Err(err) => editing_id is None && err == FormError::NoFreshId && after == before,
        }
    }
}

/// Save a submission: refused when the trimmed name or address is empty;
/// otherwise the server being edited gets the trimmed name and address,
/// the key and the profile (nothing changes when no server has that id),
/// or a new server is added with a fresh id and creation time (`NoFreshId`,
/// and no change, when no id can be made). Returns the log record to
/// persist, if any.
pub fn save_server_form(store: &mut ServerStore, editing_id: Option<u128>, data: ServerFormData) -> (r: Result<
    Option<ServerLogEntry>,
    FormError,
>)
    ensures
        save_outcome(old(store)@, final(store)@, editing_id, data, r),
{
    let name = trim_str(data.display_name.as_str());
    let address = trim_str(data.address.as_str());
    if name.is_empty() || address.is_empty() {
        return Err(FormError::MissingNameOrAddress);
    }
    match editing_id {
        Some(id) => {
            let edit = ServerEdit {
                display_name: Some(String::from_str(name)),
                address: Some(String::from_str(address)),
                noise_public_key: Some(data.noise_key),
                default_profile: Some(data.default_profile),
            };
            proof {
                lemma_find_server(store@, id);
            }
            Ok(store.update(id, edit))
        },
        None => {
            match SavedServer::new(name, address) {
                Some(server) => {
                    let mut server = server;
                    server.noise_public_key = data.noise_key;
                    server.default_profile = data.default_profile;
                    Ok(Some(store.add(server)))
                },
                None => Err(FormError::NoFreshId),
            }
        },
    }
}


/// Whether `a` holds the same text, cursor, placeholder and colours as `b`,
/// whatever its focus.
pub open spec fn same_text(a: TextInput, b: TextInput) -> bool {
    &&& a.content() == b.content()
    &&& a.cursor_pos() == b.cursor_pos()
    &&& a.placeholder_text() == b.placeholder_text()
    &&& a.mode() == b.mode()
}

/// Whether `a` is `b` unchanged.
pub open spec fn same_input(a: TextInput, b: TextInput) -> bool {
    &&& same_text(a, b)
    &&& a.has_focus() == b.has_focus()
}

/// The form's profile drop-down is unchanged.
pub open spec fn same_choice(a: Dropdown, b: Dropdown) -> bool {
    &&& a.spec_options() == b.spec_options()
    &&& a.spec_selected() == b.spec_selected()
    &&& a.spec_open() == b.spec_open()
}

/// Where a left click falls on the server form: its Cancel and Save
/// buttons, its three fields and its profile drop-down.
#[derive(Debug, Clone, Copy)]
pub struct FormHits {
    pub on_cancel: bool,
    pub on_save: bool,
    pub in_name: bool,
    pub in_address: bool,
    pub in_key: bool,
    pub profile: DropdownHit,
}

/// The add/edit server form: name, address and Noise key fields, the
/// profile drop-down, the id of the server being edited (none when adding)
/// and whether the form is shown.
pub struct ServerForm {
    name_input: TextInput,
    address_input: TextInput,
    noise_key_input: TextInput,
    profile_dropdown: Dropdown,
    editing_id: Option<u128>,
    visible: bool,
}

impl ServerForm {
    pub closed spec fn name_field(&self) -> TextInput {
        self.name_input
    }

    pub closed spec fn address_field(&self) -> TextInput {
        self.address_input
    }

    pub closed spec fn key_field(&self) -> TextInput {
        self.noise_key_input
    }

    pub closed spec fn profile_choice(&self) -> Dropdown {
        self.profile_dropdown
    }

    pub closed spec fn spec_editing(&self) -> Option<u128> {
        self.editing_id
    }

    pub closed spec fn spec_visible(&self) -> bool {
        self.visible
    }

    /// Every field keeps its cursor inside its text, and the drop-down
    /// offers exactly "Gaming" and "Coding", one of them chosen.
    pub open spec fn wf(&self) -> bool {
        &&& self.name_field().wf()
        &&& self.address_field().wf()
        &&& self.key_field().wf()
        &&& self.profile_choice().spec_options().len() == 2
        &&& self.profile_choice().spec_options()[0]@ == form_profile_options()[0]
        &&& self.profile_choice().spec_options()[1]@ == form_profile_options()[1]
        &&& self.profile_choice().spec_selected() < 2
    }

    /// A hidden, empty form for adding a server, with "Gaming" chosen.
    pub fn new() -> (f: ServerForm)
        ensures
            f.wf(),
            f.name_field().content() == Seq::<char>::empty(),
            f.address_field().content() == Seq::<char>::empty(),
            f.key_field().content() == Seq::<char>::empty(),
            f.name_field().placeholder_text() == "Server name"@,
            f.address_field().placeholder_text() == "host:port"@,
            f.key_field().placeholder_text() == "Noise public key (optional)"@,
            !f.name_field().has_focus(),
            !f.address_field().has_focus(),
            !f.key_field().has_focus(),
            f.profile_choice().spec_options().len() == 2,
            f.profile_choice().spec_options()[0]@ == form_profile_options()[0],
            f.profile_choice().spec_options()[1]@ == form_profile_options()[1],
            f.profile_choice().spec_selected() == 0,
            !f.profile_choice().spec_open(),
            f.spec_editing() is None,
            !f.spec_visible(),
    {
        proof {
            reveal_strlit("Gaming");
            reveal_strlit("Coding");
        }
        let mut options: Vec<String> = Vec::new();
        options.push(String::from_str("Gaming"));
        options.push(String::from_str("Coding"));
        ServerForm {
            name_input: TextInput::new("Server name"),
            address_input: TextInput::new("host:port"),
            noise_key_input: TextInput::new("Noise public key (optional)"),
            profile_dropdown: Dropdown::new(options, 0),
            editing_id: None,
            visible: false,
        }
    }

    pub fn show(&mut self)
        requires
            old(self).wf(),
        ensures
            final(self).wf(),
            final(self).spec_visible(),
            final(self).name_field() == old(self).name_field(),
            final(self).address_field() == old(self).address_field(),
            final(self).key_field() == old(self).key_field(),
            final(self).profile_choice() == old(self).profile_choice(),
            final(self).spec_editing() == old(self).spec_editing(),
    {
        self.visible = true;
    }

    pub fn dismiss(&mut self)
        requires
            old(self).wf(),
        ensures
            final(self).wf(),
            !final(self).spec_visible(),
            final(self).name_field() == old(self).name_field(),
            final(self).address_field() == old(self).address_field(),
            final(self).key_field() == old(self).key_field(),
            final(self).profile_choice() == old(self).profile_choice(),
            final(self).spec_editing() == old(self).spec_editing(),
    {
        self.visible = false;
    }

    pub fn is_visible(&self) -> (b: bool)
        ensures
            b == self.spec_visible(),
    {
        self.visible
    }

    /// The id of the server being edited; none when adding.
    pub fn editing_id(&self) -> (i: Option<u128>)
        ensures
            i == self.spec_editing(),
    {
        self.editing_id
    }

    /// The form's title.
    pub fn title(&self) -> (s: &'static str)
        ensures
            s@ == if self.spec_editing() is Some { "Edit Server"@ } else { "Add Server"@ },
    {
        proof {
            reveal_strlit("Edit Server");
            reveal_strlit("Add Server");
        }
        if self.editing_id.is_some() {
            "Edit Server"
        } else {
            "Add Server"
        }
    }

    /// Fill the form from a saved server for editing: its id, name,
    /// address and key (empty without one), and its default profile when
    /// the drop-down offers it (otherwise the choice stays).
    pub fn set_editing(&mut self, server: &SavedServer)
        requires
            old(self).wf(),
        ensures
            final(self).wf(),
            final(self).spec_editing() == Some(server.id),
            final(self).name_field().content() == server.display_name@,
            final(self).address_field().content() == server.address@,
            final(self).key_field().content() == match server.noise_public_key {
                Some(k) => k@,
                None => Seq::<char>::empty(),
            },
            final(self).profile_choice().spec_options() == old(self).profile_choice().spec_options(),
            final(self).profile_choice().spec_open() == old(self).profile_choice().spec_open(),
            final(self).profile_choice().spec_selected() == if server.default_profile@ == form_profile_options()[0] {
                    0
                } else if server.default_profile@ == form_profile_options()[1] {
                    1
                } else {
                    old(self).profile_choice().spec_selected()
                },
            form_profile_options().contains(server.default_profile@)
                ==> final(self).profile_choice().spec_selected_text() == server.default_profile@,
            final(self).name_field().has_focus() == old(self).name_field().has_focus(),
            final(self).address_field().has_focus() == old(self).address_field().has_focus(),
            final(self).key_field().has_focus() == old(self).key_field().has_focus(),
            final(self).spec_visible() == old(self).spec_visible(),
    {
        self.editing_id = Some(server.id);
        self.name_input.set_text(server.display_name.as_str());
        self.address_input.set_text(server.address.as_str());
        match &server.noise_public_key {
            Some(key) => self.noise_key_input.set_text(key.as_str()),
            None => {
                proof {
                    reveal_strlit("");
                }
                self.noise_key_input.set_text("");
            },
        }
        let current = self.profile_dropdown.selected_index();
        let i = editing_profile_index(server.default_profile.as_str(), current);
        self.profile_dropdown.set_selected(i);
    }

    /// Empty the fields, forget the server being edited and choose the
    /// first profile.
    pub fn clear(&mut self)
        requires
            old(self).wf(),
        ensures
            final(self).wf(),
            final(self).spec_editing() is None,
            final(self).name_field().content() == Seq::<char>::empty(),
            final(self).address_field().content() == Seq::<char>::empty(),
            final(self).key_field().content() == Seq::<char>::empty(),
            final(self).profile_choice().spec_options() == old(self).profile_choice().spec_options(),
            final(self).profile_choice().spec_open() == old(self).profile_choice().spec_open(),
            final(self).profile_choice().spec_selected() == 0,
            final(self).profile_choice().spec_selected_text() == form_profile_options()[0],
            final(self).spec_visible() == old(self).spec_visible(),
    {
        proof {
            reveal_strlit("");
        }
        self.editing_id = None;
        self.name_input.set_text("");
        self.address_input.set_text("");
        self.noise_key_input.set_text("");
        self.profile_dropdown.set_selected(0);
    }

    /// What the form submits: the name and address as typed, the key
    /// (absent when its field is empty) and the chosen profile's name.
    pub fn form_data(&self) -> (d: ServerFormData)
        ensures
            d.display_name@ == self.name_field().content(),
            d.address@ == self.address_field().content(),
            match d.noise_key {
                Some(k) => self.key_field().content().len() > 0 && k@ == self.key_field().content(),
                None => self.key_field().content().len() == 0,
            },
            d.default_profile@ == self.profile_choice().spec_selected_text(),
    {
        let key = self.noise_key_input.text();
        ServerFormData {
            display_name: self.name_input.text(),
            address: self.address_input.text(),
            noise_key: if key.as_str().is_empty() {
                None
            } else {
                Some(key)
            },
            default_profile: String::from_str(self.profile_dropdown.selected_text()),
        }
    }

    /// Whether the shown-or-hidden form can take a left click with these
    /// hits: a shown form takes a click on its buttons or fields, and one
    /// that its profile drop-down takes.
    pub open spec fn takes_click(&self, h: FormHits) -> bool {
        &&& self.spec_visible()
        &&& (h.on_cancel || h.on_save || h.in_name || h.in_address || h.in_key
            || self.profile_choice().takes_click(h.profile.on_header))
    }

    /// What a left click with hits `h` does to the form (`self` before,
    /// `after` after) and answers (see `click`).
    pub open spec fn clicked(&self, after: &ServerForm, h: FormHits, r: EventResponse) -> bool {
        &&& after.spec_editing() == self.spec_editing()
        &&& after.spec_visible() == self.spec_visible()
        &&& same_text(after.name_field(), self.name_field())
        &&& same_text(after.address_field(), self.address_field())
        &&& same_text(after.key_field(), self.key_field())
        &&& after.profile_choice().spec_options() == self.profile_choice().spec_options()
        &&& if !self.spec_visible() || h.on_cancel || h.on_save {
            &&& if !self.spec_visible() {
                r is Ignored
            } else if h.on_cancel {
                r matches EventResponse::Action(UiAction::CancelModal)
            } else {
                r matches EventResponse::Action(UiAction::SaveServer)
            }
            &&& same_input(after.name_field(), self.name_field())
            &&& same_input(after.address_field(), self.address_field())
            &&& same_input(after.key_field(), self.key_field())
            &&& same_choice(after.profile_choice(), self.profile_choice())
        } else if h.in_name {
            &&& r is Consumed
            &&& after.name_field().has_focus()
            &&& after.address_field().has_focus() == self.address_field().has_focus()
            &&& after.key_field().has_focus() == self.key_field().has_focus()
            &&& same_choice(after.profile_choice(), self.profile_choice())
        } else if h.in_address {
            &&& r is Consumed
            &&& !after.name_field().has_focus()
            &&& after.address_field().has_focus()
            &&& after.key_field().has_focus() == self.key_field().has_focus()
            &&& same_choice(after.profile_choice(), self.profile_choice())
        } else if h.in_key {
            &&& r is Consumed
            &&& !after.name_field().has_focus()
            &&& !after.address_field().has_focus()
            &&& after.key_field().has_focus()
            &&& same_choice(after.profile_choice(), self.profile_choice())
        } else {
            &&& !after.name_field().has_focus()
            &&& !after.address_field().has_focus()
            &&& !after.key_field().has_focus()
            &&& after.profile_choice().spec_selected() == self.profile_choice().selection_after_click(
                h.profile.on_header,
                h.profile.item,
            )
            &&& after.profile_choice().spec_open() == self.profile_choice().open_after_click(
                h.profile.on_header,
            )
            &&& if self.profile_choice().takes_click(h.profile.on_header) {
                r is Consumed
            } else {
                r is Ignored
            }
        }
    }

    /// A left click on the shown form: Cancel and Save answer with their
    /// actions; otherwise the fields are offered the click in order (name,
    /// address, key), each dropping its focus until one under the pointer
    /// takes it; otherwise the profile drop-down gets it. A hidden form
    /// ignores clicks.
    pub fn click(&mut self, hits: FormHits) -> (r: EventResponse)
        requires
            old(self).wf(),
        ensures
            final(self).wf(),
            old(self).clicked(&*final(self), hits, r),
            r is Ignored <==> !old(self).takes_click(hits),
    {
        let on_cancel = hits.on_cancel;
        let on_save = hits.on_save;
        let in_name = hits.in_name;
        let in_address = hits.in_address;
        let in_key = hits.in_key;
        let profile = hits.profile;
        if !self.visible {
            return EventResponse::Ignored;
        }
        if on_cancel {
            return EventResponse::Action(UiAction::CancelModal);
        }
        if on_save {
            return EventResponse::Action(UiAction::SaveServer);
        }
        let r = self.name_input.click(in_name);
        if in_name {
            return r;
        }
        let r = self.address_input.click(in_address);
        if in_address {
            return r;
        }
        let r = self.noise_key_input.click(in_key);
        if in_key {
            return r;
        }
        self.profile_dropdown.click(profile.on_header, profile.item)
    }

    /// What typing `ch` does to the form (`self` before, `after` after) and
    /// answers (see `type_char`).
    pub open spec fn char_typed(&self, after: &ServerForm, ch: char, r: EventResponse) -> bool {
        &&& after.spec_editing() == self.spec_editing()
        &&& after.spec_visible() == self.spec_visible()
        &&& same_choice(after.profile_choice(), self.profile_choice())
        &&& after.name_field().has_focus() == self.name_field().has_focus()
        &&& after.address_field().has_focus() == self.address_field().has_focus()
        &&& after.key_field().has_focus() == self.key_field().has_focus()
        &&& if !self.spec_visible() {
            &&& r is Ignored
            &&& same_input(after.name_field(), self.name_field())
            &&& same_input(after.address_field(), self.address_field())
            &&& same_input(after.key_field(), self.key_field())
        } else if self.name_field().has_focus() {
            &&& r is Consumed
            &&& (after.name_field().content(), after.name_field().cursor_pos()) == typed(
                self.name_field().content(),
                self.name_field().cursor_pos(),
                ch,
            )
            &&& same_input(after.address_field(), self.address_field())
            &&& same_input(after.key_field(), self.key_field())
        } else if self.address_field().has_focus() {
            &&& r is Consumed
            &&& same_input(after.name_field(), self.name_field())
            &&& (after.address_field().content(), after.address_field().cursor_pos())
                == typed(self.address_field().content(), self.address_field().cursor_pos(), ch)
            &&& same_input(after.key_field(), self.key_field())
        } else if self.key_field().has_focus() {
            &&& r is Consumed
            &&& same_input(after.name_field(), self.name_field())
            &&& same_input(after.address_field(), self.address_field())
            &&& (after.key_field().content(), after.key_field().cursor_pos()) == typed(
                self.key_field().content(),
                self.key_field().cursor_pos(),
                ch,
            )
        } else {
            &&& r is Ignored
            &&& same_input(after.name_field(), self.name_field())
            &&& same_input(after.address_field(), self.address_field())
            &&& same_input(after.key_field(), self.key_field())
        }
    }

    /// A typed character, for the first focused field (name, address,
    /// key); ignored when none is focused or the form is hidden.
    pub fn type_char(&mut self, ch: char) -> (r: EventResponse)
        requires
            old(self).wf(),
            old(self).name_field().content().len() < usize::MAX,
            old(self).address_field().content().len() < usize::MAX,
            old(self).key_field().content().len() < usize::MAX,
        ensures
            final(self).wf(),
            old(self).char_typed(&*final(self), ch, r),
    {
        if !self.visible {
            return EventResponse::Ignored;
        }
        let r = self.name_input.type_char(ch);
        if matches!(r, EventResponse::Consumed) {
            return r;
        }
        let r = self.address_input.type_char(ch);
        if matches!(r, EventResponse::Consumed) {
            return r;
        }
        self.noise_key_input.type_char(ch)
    }

    /// What pressing `key` does to the form (`self` before, `after` after)
    /// and answers (see `key_down`).
    pub open spec fn key_pressed(&self, after: &ServerForm, key: KeyCode, r: EventResponse) -> bool {
        &&& after.spec_editing() == self.spec_editing()
        &&& after.spec_visible() == self.spec_visible()
        &&& same_choice(after.profile_choice(), self.profile_choice())
        &&& after.name_field().has_focus() == self.name_field().has_focus()
        &&& after.address_field().has_focus() == self.address_field().has_focus()
        &&& after.key_field().has_focus() == self.key_field().has_focus()
        &&& if !self.spec_visible() || !is_editing_key(key) {
            &&& r is Ignored
            &&& same_input(after.name_field(), self.name_field())
            &&& same_input(after.address_field(), self.address_field())
            &&& same_input(after.key_field(), self.key_field())
        } else if self.name_field().has_focus() {
            &&& r is Consumed
            &&& (after.name_field().content(), after.name_field().cursor_pos())
                == edited_by_key(self.name_field().content(), self.name_field().cursor_pos(), key)
            &&& same_input(after.address_field(), self.address_field())
            &&& same_input(after.key_field(), self.key_field())
        } else if self.address_field().has_focus() {
            &&& r is Consumed
            &&& same_input(after.name_field(), self.name_field())
            &&& (after.address_field().content(), after.address_field().cursor_pos())
                == edited_by_key(
                self.address_field().content(),
                self.address_field().cursor_pos(),
                key,
            )
            &&& same_input(after.key_field(), self.key_field())
        } else if self.key_field().has_focus() {
            &&& r is Consumed
            &&& same_input(after.name_field(), self.name_field())
            &&& same_input(after.address_field(), self.address_field())
            &&& (after.key_field().content(), after.key_field().cursor_pos())
                == edited_by_key(self.key_field().content(), self.key_field().cursor_pos(), key)
        } else {
            &&& r is Ignored
            &&& same_input(after.name_field(), self.name_field())
            &&& same_input(after.address_field(), self.address_field())
            &&& same_input(after.key_field(), self.key_field())
        }
    }

    /// A key press, for the first focused field that takes it (editing
    /// keys only); ignored otherwise.
    pub fn key_down(&mut self, key: KeyCode) -> (r: EventResponse)
        requires
            old(self).wf(),
        ensures
            final(self).wf(),
            old(self).key_pressed(&*final(self), key, r),
    {
        if !self.visible {
            return EventResponse::Ignored;
        }
        let r = self.name_input.key_down(key);
        if matches!(r, EventResponse::Consumed) {
            return r;
        }
        let r = self.address_input.key_down(key);
        if matches!(r, EventResponse::Consumed) {
            return r;
        }
        self.noise_key_input.key_down(key)
    }
}

} // verus!
