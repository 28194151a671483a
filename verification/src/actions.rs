//! What the launcher and the overlay do with the actions their widgets emit:
//! the control command an in-session action sends, the modal a server
//! action opens, and the modal layer itself.

use vstd::prelude::*;
use crate::launcher::{ActiveModal, FormMode, LauncherTab};
use crate::text_input::TextInput;
use crate::servers::{copy_opt_string, find_server, lemma_find_server, ServerStore};
use crate::session::ControlCommand;
use crate::widgets::{EventResponse, UiAction};

verus! {

/// The control command that an in-session action sends, if any.
pub open spec fn spec_control_command_for(action: UiAction) -> Option<ControlCommand> {
    match action {
        UiAction::SwitchProfile(name) => Some(ControlCommand::SwitchProfile(name)),
        UiAction::UpdateQuality { preset, max_fps, lossless_text, region_detection } => Some(
            ControlCommand::UpdateQuality {
                encoder_preset: preset,
                max_fps,
                lossless_text,
                region_detection,
            },
        ),
        UiAction::SetBandwidthLimit(bps) => Some(ControlCommand::SetBandwidthLimit(bps)),
        UiAction::SelectMonitor(index) => Some(ControlCommand::SelectMonitor(index)),
        _ => None,
    }
}

/// The control command for an in-session action: profile switches,
/// quality updates, bandwidth limits and monitor choices go to the host.
pub fn control_command_for(action: &UiAction) -> (c: Option<ControlCommand>)
    ensures
        c == spec_control_command_for(*action),
{
    match action {
        UiAction::SwitchProfile(name) => Some(ControlCommand::SwitchProfile(name.clone())),
        UiAction::UpdateQuality { preset, max_fps, lossless_text, region_detection } => Some(
            ControlCommand::UpdateQuality {
                encoder_preset: copy_opt_string(preset),
                max_fps: *max_fps,
                lossless_text: *lossless_text,
                region_detection: *region_detection,
            },
        ),
        UiAction::SetBandwidthLimit(bps) => Some(ControlCommand::SetBandwidthLimit(*bps)),
        UiAction::SelectMonitor(index) => Some(ControlCommand::SelectMonitor(*index)),
        _ => None,
    }
}

/// The modal a server action opens: the empty form for Add, the form in
/// edit mode for a saved server, the delete confirmation (with the
/// server's name) for a saved server; nothing for unknown ids or other
/// actions.
pub open spec fn spec_modal_for(action: UiAction, servers: Seq<crate::servers::SavedServer>) -> Option<
    (int, u128, Seq<char>),
> {
    match action {
        UiAction::AddServer => Some((0, 0, Seq::empty())),
        UiAction::EditServer(id) => if find_server(servers, id) >= 0 {
            Some((1, id, Seq::empty()))
        } else {
            None
        },
        UiAction::DeleteServer(id) => if find_server(servers, id) >= 0 {
            Some((2, id, servers[find_server(servers, id)].display_name@))
        } else {
            None
        },
        _ => None,
    }
}

/// The kind (0 add form, 1 edit form, 2 delete confirmation), server id and
/// name that a modal shows.
pub open spec fn modal_summary(m: ActiveModal) -> (int, u128, Seq<char>) {
    match m {
        ActiveModal::ServerForm { mode } => match mode {
            FormMode::Add => (0, 0, Seq::empty()),
            FormMode::Edit { server_id } => (1, server_id, Seq::empty()),
        },
        ActiveModal::ConfirmDelete { server_id, name } => (2, server_id, name@),
    }
}

/// The modal a server action opens, looked up in the saved servers.
pub fn modal_for(action: &UiAction, store: &ServerStore) -> (m: Option<ActiveModal>)
    ensures
        match m {
            Some(modal) => spec_modal_for(*action, store@) == Some(modal_summary(modal)),
            None => spec_modal_for(*action, store@) is None,
        },
{
    proof {
        match action {
            UiAction::EditServer(id) => lemma_find_server(store@, *id),
            UiAction::DeleteServer(id) => lemma_find_server(store@, *id),
            _ => {},
        }
    }
    match action {
        UiAction::AddServer => Some(ActiveModal::ServerForm { mode: FormMode::Add }),
        UiAction::EditServer(id) => match store.get(*id) {
            Some(_) => Some(ActiveModal::ServerForm { mode: FormMode::Edit { server_id: *id } }),
            None => None,
        },
        UiAction::DeleteServer(id) => match store.get(*id) {
            Some(s) => Some(ActiveModal::ConfirmDelete { server_id: *id, name: s.display_name.clone() }),
            None => None,
        },
        _ => None,
    }
}

/// The modal layer of the launcher: which modal is open, and whether the
/// server form is shown.
pub struct ModalLayer {
    active: Option<ActiveModal>,
    form_visible: bool,
}

impl ModalLayer {
    pub closed spec fn open_modal(&self) -> Option<ActiveModal> {
        self.active
    }

    pub closed spec fn form_shown(&self) -> bool {
        self.form_visible
    }

    /// Whether the open modal is the server form.
    pub open spec fn form_open(&self) -> bool {
        self.open_modal() matches Some(ActiveModal::ServerForm { .. })
    }

    pub fn new() -> (l: ModalLayer)
        ensures
            l.open_modal() is None,
            !l.form_shown(),
    {
        ModalLayer { active: None, form_visible: false }
    }

    /// Open a modal; the form is shown exactly for the form modal. True
    /// when the form must be cleared first (the Add form).
    pub fn show(&mut self, modal: ActiveModal) -> (clear_form: bool)
        ensures
            final(self).open_modal() == Some(modal),
            final(self).form_shown() == (modal is ServerForm),
            clear_form == (modal matches ActiveModal::ServerForm { mode: FormMode::Add }),
    {
        let clear_form = match &modal {
            ActiveModal::ServerForm { mode: FormMode::Add } => true,
            _ => false,
        };
        self.form_visible = match &modal {
            ActiveModal::ServerForm { .. } => true,
            _ => false,
        };
        self.active = Some(modal);
        clear_form
    }

    /// Close whatever modal is open and hide the form.
    pub fn dismiss(&mut self)
        ensures
            final(self).open_modal() is None,
            !final(self).form_shown(),
    {
        self.form_visible = false;
        self.active = None;
    }

    pub fn has_modal(&self) -> (b: bool)
        ensures
            b == (self.open_modal() is Some),
    {
        self.active.is_some()
    }

    /// The open modal, if any.
    pub fn active(&self) -> (m: Option<&ActiveModal>)
        ensures
            match m {
                Some(a) => self.open_modal() == Some(*a),
                None => self.open_modal() is None,
            },
    {
        match &self.active {
            Some(a) => Some(a),
            None => None,
        }
    }

    /// Whether form data may be submitted: the form modal is open.
    pub fn form_active(&self) -> (b: bool)
        ensures
            b == self.form_open(),
    {
        match &self.active {
            Some(ActiveModal::ServerForm { .. }) => true,
            _ => false,
        }
    }

    /// A left click on the modal layer that the form did not take: in the
    /// delete confirmation its Cancel and Delete buttons answer with their
    /// actions; a click outside the panel closes the modal; anything else is
    /// ignored.
    pub fn click(&mut self, on_cancel: bool, on_confirm: bool, inside_panel: bool) -> (r: EventResponse)
        requires
            old(self).open_modal() is Some,
        ensures
            ({
                let m = old(self).open_modal().unwrap();
                if m is ConfirmDelete && on_cancel {
                    r matches EventResponse::Action(UiAction::CancelModal) && final(self).open_modal()
                        == old(self).open_modal() && final(self).form_shown() == old(self).form_shown()
                } else if m is ConfirmDelete && on_confirm {
                    r matches EventResponse::Action(UiAction::ConfirmDeleteServer(id)) && id
                        == m->ConfirmDelete_server_id && final(self).open_modal() == old(self).open_modal()
                        && final(self).form_shown() == old(self).form_shown()
                } else if !inside_panel {
                    r is Consumed && final(self).open_modal() is None && !final(self).form_shown()
                } else {
                    r is Ignored && final(self).open_modal() == old(self).open_modal()
                        && final(self).form_shown() == old(self).form_shown()
                }
            }),
    {
        match &self.active {
            Some(ActiveModal::ConfirmDelete { server_id, .. }) => {
                if on_cancel {
                    return EventResponse::Action(UiAction::CancelModal);
                }
                if on_confirm {
                    return EventResponse::Action(UiAction::ConfirmDeleteServer(*server_id));
                }
            },
            _ => {},
        }
        if !inside_panel {
            self.dismiss();
            return EventResponse::Consumed;
        }
        EventResponse::Ignored
    }
}

/// The launcher tab shown after an action: connecting, switching server
/// and disconnecting go back to Home, a tab request opens that tab, and
/// other actions keep the current one.
pub open spec fn spec_tab_after(action: UiAction, current: LauncherTab) -> LauncherTab {
    match action {
        UiAction::Connect { .. } => LauncherTab::Home,
        UiAction::SwitchServer { .. } => LauncherTab::Home,
        UiAction::Disconnect => LauncherTab::Home,
        UiAction::OpenLauncherTab(tab) => tab,
        _ => current,
    }
}

pub fn tab_after(action: &UiAction, current: LauncherTab) -> (t: LauncherTab)
    ensures
        t == spec_tab_after(*action, current),
{
    match action {
        UiAction::Connect { .. } => LauncherTab::Home,
        UiAction::SwitchServer { .. } => LauncherTab::Home,
        UiAction::Disconnect => LauncherTab::Home,
        UiAction::OpenLauncherTab(tab) => *tab,
        _ => current,
    }
}

/// The address to connect to that an action carries, if it starts a
/// connection.
pub fn connect_target(action: &UiAction) -> (a: Option<String>)
    ensures
        match a {
            Some(s) => (action matches UiAction::Connect { address, .. } && s@ == address@)
                || (action matches UiAction::SwitchServer { address } && s@ == address@),
            None => !(action is Connect) && !(action is SwitchServer),
        },
{
    match action {
        UiAction::Connect { address, .. } => Some(address.clone()),
        UiAction::SwitchServer { address } => Some(address.clone()),
        _ => None,
    }
}

/// Enter in the quick-connect field: a connection to the typed address
/// (without a key) when the field is focused and not empty.
pub fn quick_connect_enter(input: &TextInput) -> (a: Option<UiAction>)
    ensures
        match a {
            Some(action) => input.has_focus() && input.content().len() > 0 && (action matches UiAction::Connect {
                address,
                noise_key,
            } && address@ == input.content() && noise_key is None),
            None => !(input.has_focus() && input.content().len() > 0),
        },
{
    if input.is_focused() {
        let text = input.text();
        if !text.as_str().is_empty() {
            return Some(UiAction::Connect { address: text, noise_key: None });
        }
    }
    None
}

/// In-session actions go to the host unchanged: a profile switch names the
/// same profile, a quality update carries each of its four settings as
/// they are (the preset as the encoder preset), a bandwidth limit and a
/// monitor choice carry the same number, and no other action makes a
/// command.
pub proof fn lemma_commands_carry_the_action(action: UiAction)
    ensures
        match action {
            UiAction::SwitchProfile(name) => spec_control_command_for(action) matches Some(
                ControlCommand::SwitchProfile(n),
            ) && n == name,
            UiAction::UpdateQuality { preset, max_fps, lossless_text, region_detection } => spec_control_command_for(action) matches Some(
                ControlCommand::UpdateQuality { encoder_preset: p, max_fps: f, lossless_text: l, region_detection: r },
            ) && p == preset && f == max_fps && l == lossless_text && r == region_detection,
            UiAction::SetBandwidthLimit(bps) => spec_control_command_for(action) matches Some(
                ControlCommand::SetBandwidthLimit(b),
            ) && b == bps,
            UiAction::SelectMonitor(index) => spec_control_command_for(action) matches Some(
                ControlCommand::SelectMonitor(i),
            ) && i == index,
            _ => spec_control_command_for(action) is None,
        },
{
}

} // verus!
