//! The application's state and its answer to each user action: the
//! launcher shell, the session flow, the overlay capsule and the saved
//! servers and profiles. Windows, rendering, files and the network are
//! driven by the caller, which carries out the returned effect.

use vstd::prelude::*;
use crate::actions::{control_command_for, spec_control_command_for};
use crate::cards::{card_mode_for, cards_show_in_recency_order, CardGrid};
use crate::config::LaunchMode;
use crate::launcher::{ActiveModal, FormMode, GridMode, LauncherTab};
use crate::overlay::CapsuleState;
use crate::profiles::{ProfileConfig, ProfileStore};
use crate::server_form::{save_outcome, save_server_form, FormError, FormHits, ServerFormData};
use crate::servers::{apply_server_entry, find_server, lemma_find_server, SavedServer, ServerLogEntry, ServerStore};
use crate::session::{
    applies_profile, normalize_address, normalized_address, preferred_profile_name,
    resolve_profile_for_connection, resolved_profile, ControlCommand,
};
use crate::shell::{filter_reset, grid_for_tab, LauncherShell};
use crate::double_tap::TapState;
use crate::ui_state::{control_press_step, SessionFlow, UiState};
use crate::widgets::{EventResponse, UiAction};

verus! {

/// What the caller is to do after an action.
#[derive(Debug)]
pub enum AppEffect {
    Nothing,
    /// Dial `address` (the requested one with the default port added when
    /// it names none), then report through `start_connection`.
    Dial { requested: String, address: String },
    /// Close the session's channels.
    EndSession,
    /// Append this record to the saved-server log.
    Persist(ServerLogEntry),
    /// Send this command to the host.
    Control(ControlCommand),
}

/// Where a key event goes once the application has seen it.
#[derive(Debug, Clone, Copy, PartialEq, Eq, Structural)]
pub enum KeyRoute {
    /// Nowhere further.
    Nothing,
    /// To the launcher (a press while the launcher is shown).
    Launcher,
    /// To the host (a press while the plain stream is shown).
    Remote,
}

/// The named keys the client can forward to the host.
#[derive(Debug, Clone, Copy, PartialEq, Eq, Structural)]
pub enum NamedKey {
    Enter,
    Escape,
    Tab,
    Backspace,
    Delete,
    ArrowLeft,
    ArrowRight,
    ArrowUp,
    ArrowDown,
    Home,
    End,
    Space,
    Control,
    Shift,
    Alt,
    /// Any other named key; it is not forwarded.
    Other,
}

/// The Windows virtual-key code of a named key, 0 for one with none.
pub open spec fn spec_virtual_key(key: NamedKey) -> u16 {
    match key {
        NamedKey::Enter => 0x0D,
        NamedKey::Escape => 0x1B,
        NamedKey::Tab => 0x09,
        NamedKey::Backspace => 0x08,
        NamedKey::Delete => 0x2E,
        NamedKey::ArrowLeft => 0x25,
        NamedKey::ArrowRight => 0x27,
        NamedKey::ArrowUp => 0x26,
        NamedKey::ArrowDown => 0x28,
        NamedKey::Home => 0x24,
        NamedKey::End => 0x23,
        NamedKey::Space => 0x20,
        NamedKey::Control => 0x11,
        NamedKey::Shift => 0x10,
        NamedKey::Alt => 0x12,
        NamedKey::Other => 0,
    }
}

/// The virtual-key code sent to the host for a named key (0: not sent).
pub fn virtual_key(key: NamedKey) -> (vk: u16)
    ensures
        vk == spec_virtual_key(key),
{
    match key {
        NamedKey::Enter => 0x0D,
        NamedKey::Escape => 0x1B,
        NamedKey::Tab => 0x09,
        NamedKey::Backspace => 0x08,
        NamedKey::Delete => 0x2E,
        NamedKey::ArrowLeft => 0x25,
        NamedKey::ArrowRight => 0x27,
        NamedKey::ArrowUp => 0x26,
        NamedKey::ArrowDown => 0x28,
        NamedKey::Home => 0x24,
        NamedKey::End => 0x23,
        NamedKey::Space => 0x20,
        NamedKey::Control => 0x11,
        NamedKey::Shift => 0x10,
        NamedKey::Alt => 0x12,
        NamedKey::Other => 0,
    }
}

/// The key code forwarded to the host for a key that went to it: the named
/// key's virtual-key code when it has one, nothing otherwise.
pub fn forwarded_key(route: KeyRoute, key: NamedKey) -> (vk: Option<u16>)
    ensures
        vk == if route == KeyRoute::Remote && spec_virtual_key(key) != 0 {
            Some(spec_virtual_key(key))
        } else {
            None
        },
{
    let code = virtual_key(key);
    if route == KeyRoute::Remote && code != 0 {
        Some(code)
    } else {
        None
    }
}

/// What drawing one frame is to do, decided from the surface shown.
#[derive(Debug, Clone, Copy, PartialEq, Eq, Structural)]
pub struct FramePlan {
    /// Drain the decoded frames, keeping the latest, and draw the stream.
    pub draw_stream: bool,
    /// Draw the overlay capsule over the stream.
    pub draw_capsule: bool,
    /// Paint the launcher.
    pub draw_launcher: bool,
}

/// Whether the stream texture must be made anew for a frame of
/// `width` x `height`: there is none yet, or its size differs.
pub fn stream_texture_outdated(current: Option<(u32, u32)>, width: u32, height: u32) -> (b: bool)
    ensures
        b == match current {
            Some((w, h)) => w != width || h != height,
            None => true,
        },
{
    match current {
        Some((w, h)) => w != width || h != height,
        None => true,
    }
}

/// The application's state apart from windows, rendering and the network.
pub struct PrismApp {
    shell: LauncherShell,
    flow: SessionFlow,
    capsule: CapsuleState,
    server_store: ServerStore,
    profile_store: Option<ProfileStore>,
}

/// Whether shell `after` is `before` switched to Home.
pub open spec fn shell_home(after: LauncherShell, before: LauncherShell) -> bool {
    &&& after.spec_tab() == LauncherTab::Home
    &&& after.spec_focused() is None
    &&& after.same_frame(&before)
    &&& filter_reset(after.spec_grid(), before.spec_grid())
}

/// Whether shell `after` is `before` with its grid showing `servers` and
/// its modal closed, the form hidden and otherwise kept.
pub open spec fn shell_refreshed_and_closed(after: LauncherShell, before: LauncherShell, servers: Seq<SavedServer>) -> bool {
    &&& after.spec_tab() == before.spec_tab()
    &&& after.spec_focused() == before.spec_focused()
    &&& after.spec_ui_state() == before.spec_ui_state()
    &&& after.spec_section() == before.spec_section()
    &&& after.spec_grid().same_settings(&before.spec_grid())
    &&& cards_show_in_recency_order(after.spec_grid().spec_cards(), servers, card_mode_for(before.spec_grid().spec_mode()))
    &&& after.spec_modal().open_modal() is None
    &&& !after.spec_form().spec_visible()
    &&& after.spec_form().spec_editing() == before.spec_form().spec_editing()
    &&& after.spec_form().name_field() == before.spec_form().name_field()
    &&& after.spec_form().address_field() == before.spec_form().address_field()
    &&& after.spec_form().key_field() == before.spec_form().key_field()
    &&& after.spec_form().profile_choice() == before.spec_form().profile_choice()
}

/// Whether shell `after` is `before` with modal `m` opened (see
/// `LauncherShell::show_modal`), nothing else changed.
pub open spec fn shell_with_modal(after: LauncherShell, before: LauncherShell, m: ActiveModal) -> bool {
    &&& after.spec_modal().open_modal() == Some(m)
    &&& after.spec_form().spec_visible() == (m is ServerForm)
    &&& after.spec_tab() == before.spec_tab()
    &&& after.spec_focused() == before.spec_focused()
    &&& after.spec_ui_state() == before.spec_ui_state()
    &&& after.spec_section() == before.spec_section()
    &&& after.spec_grid() == before.spec_grid()
}

/// The form data the shell holds while its form modal is open.
pub open spec fn form_data_of(s: LauncherShell, d: ServerFormData) -> bool {
    &&& d.display_name@ == s.spec_form().name_field().content()
    &&& d.address@ == s.spec_form().address_field().content()
    &&& match d.noise_key {
        Some(k) => s.spec_form().key_field().content().len() > 0 && k@ == s.spec_form().key_field().content(),
        None => s.spec_form().key_field().content().len() == 0,
    }
    &&& d.default_profile@ == s.spec_form().profile_choice().spec_selected_text()
}

/// Whether a save of form data `data` with outcome `r` took the shell and
/// the saved servers from `(s0, v0)` to `(s1, v1)` with effect `e`: the
/// store changed as `save_server_form` says; on success the grid shows the
/// new list and the modal is closed, and the record (if any) is to be
/// persisted; on refusal nothing changed.
pub open spec fn saved_as(
    s0: LauncherShell,
    v0: Seq<SavedServer>,
    s1: LauncherShell,
    v1: Seq<SavedServer>,
    data: ServerFormData,
    r: Result<Option<ServerLogEntry>, FormError>,
    e: AppEffect,
) -> bool {
    &&& form_data_of(s0, data)
    &&& save_outcome(v0, v1, s0.spec_form().spec_editing(), data, r)
    &&& match r {
        Ok(entry) => {
            &&& shell_refreshed_and_closed(s1, s0, v1)
            &&& match entry {
                Some(en) => e == AppEffect::Persist(en),
                None => e is Nothing,
            }
        },
        Err(_) => e is Nothing && s1 == s0,
    }
}

impl PrismApp {
    pub closed spec fn spec_shell(&self) -> LauncherShell {
        self.shell
    }

    pub closed spec fn spec_flow(&self) -> SessionFlow {
        self.flow
    }

    pub closed spec fn spec_capsule(&self) -> CapsuleState {
        self.capsule
    }

    pub closed spec fn spec_servers(&self) -> Seq<SavedServer> {
        self.server_store@
    }

    pub closed spec fn spec_profiles(&self) -> Option<Seq<ProfileConfig>> {
        match self.profile_store {
            Some(ps) => Some(ps@),
            None => None,
        }
    }

    pub open spec fn wf(&self) -> bool {
        self.spec_shell().wf()
    }

    /// Whether only the shell, the store and the effect may differ from
    /// `other`: the flow, the capsule and the profiles are kept.
    pub open spec fn same_session(&self, other: &PrismApp) -> bool {
        &&& self.spec_flow() == other.spec_flow()
        &&& self.spec_capsule() == other.spec_capsule()
        &&& self.spec_profiles() == other.spec_profiles()
    }

    /// The application at start-up: the launch mode's surface, a hidden
    /// capsule, the saved servers in the grid and the launcher on Home.
    pub fn new(
        mode: LaunchMode,
        double_tap_window_ms: u64,
        servers: ServerStore,
        profiles: Option<ProfileStore>,
    ) -> (app: PrismApp)
        ensures
            app.wf(),
            app.spec_flow().ui() == UiState::spec_initial(mode),
            app.spec_flow().window() == double_tap_window_ms,
            app.spec_flow().pending() is None,
            !app.spec_capsule().is_visible(),
            app.spec_servers() == servers@,
            app.spec_profiles() == match profiles {
                Some(ps) => Some(ps@),
                None => None::<Seq<ProfileConfig>>,
            },
            app.spec_shell().spec_tab() == LauncherTab::Home,
            app.spec_shell().spec_modal().open_modal() is None,
            cards_show_in_recency_order(
                app.spec_shell().spec_grid().spec_cards(),
                servers@,
                card_mode_for(GridMode::Grid),
            ),
    {
        let mut grid = CardGrid::new();
        grid.set_servers(servers.servers());
        let shell = LauncherShell::new(grid);
        PrismApp {
            shell,
            flow: SessionFlow::new(mode, double_tap_window_ms),
            capsule: CapsuleState::new(),
            server_store: servers,
            profile_store: profiles,
        }
    }

    pub fn shell(&self) -> (s: &LauncherShell)
        ensures
            *s == self.spec_shell(),
    {
        &self.shell
    }

    pub fn flow(&self) -> (f: &SessionFlow)
        ensures
            *f == self.spec_flow(),
    {
        &self.flow
    }

    pub fn capsule(&self) -> (c: &CapsuleState)
        ensures
            *c == self.spec_capsule(),
    {
        &self.capsule
    }

    pub fn server_store(&self) -> (s: &ServerStore)
        ensures
            s@ == self.spec_servers(),
    {
        &self.server_store
    }

    /// Carry out a user action (see `AppEffect` for what is left to the
    /// caller). Connecting or switching server goes to Home and asks to
    /// dial; a tab request opens the tab; disconnecting ends the session,
    /// returns to the launcher's Home and hides the capsule; the server
    /// actions open, fill, save and close the server form and the delete
    /// confirmation against the saved servers, and ask to persist what
    /// changed; closing the overlay returns to the stream; in-session
    /// settings go to the host; panel and pin requests change nothing here.
    #[verifier::rlimit(40)]
    pub fn handle_action(&mut self, action: UiAction) -> (e: AppEffect)
        requires
            old(self).wf(),
        ensures
            final(self).wf(),
            final(self).spec_profiles() == old(self).spec_profiles(),
            match action {
                UiAction::Connect { address, .. } => {
                    &&& e matches AppEffect::Dial { requested, address: a } && requested@ == address@ && a@
                        == normalized_address(address@)
                    &&& shell_home(final(self).spec_shell(), old(self).spec_shell())
                    &&& final(self).same_session(old(self))
                    &&& final(self).spec_servers() == old(self).spec_servers()
                },
                UiAction::SwitchServer { address } => {
                    &&& e matches AppEffect::Dial { requested, address: a } && requested@ == address@ && a@
                        == normalized_address(address@)
                    &&& shell_home(final(self).spec_shell(), old(self).spec_shell())
                    &&& final(self).same_session(old(self))
                    &&& final(self).spec_servers() == old(self).spec_servers()
                },
                UiAction::OpenLauncherTab(t) => {
                    &&& e is Nothing
                    &&& final(self).spec_shell().spec_tab() == t
                    &&& final(self).spec_shell().spec_focused() is None
                    &&& final(self).spec_shell().same_frame(&old(self).spec_shell())
                    &&& (t == LauncherTab::Home ==> filter_reset(
                        final(self).spec_shell().spec_grid(),
                        old(self).spec_shell().spec_grid(),
                    ))
                    &&& (t != LauncherTab::Home ==> grid_for_tab(
                        final(self).spec_shell().spec_grid(),
                        old(self).spec_shell().spec_grid(),
                        t,
                    ))
                    &&& final(self).same_session(old(self))
                    &&& final(self).spec_servers() == old(self).spec_servers()
                },
                UiAction::Disconnect => {
                    &&& e is EndSession
                    &&& final(self).spec_flow().ui() == UiState::Launcher
                    &&& final(self).spec_flow().pending() is None
                    &&& final(self).spec_flow().tap() == old(self).spec_flow().tap()
                    &&& !final(self).spec_capsule().is_visible()
                    &&& final(self).spec_capsule().active() is None
                    &&& shell_home(final(self).spec_shell(), old(self).spec_shell())
                    &&& final(self).spec_servers() == old(self).spec_servers()
                },
                UiAction::AddServer => {
                    &&& e is Nothing
                    &&& shell_with_modal(
                        final(self).spec_shell(),
                        old(self).spec_shell(),
                        ActiveModal::ServerForm { mode: FormMode::Add },
                    )
                    &&& final(self).spec_shell().spec_form().spec_editing() is None
                    &&& final(self).spec_shell().spec_form().name_field().content() == Seq::<char>::empty()
                    &&& final(self).spec_shell().spec_form().address_field().content() == Seq::<char>::empty()
                    &&& final(self).spec_shell().spec_form().key_field().content() == Seq::<char>::empty()
                    &&& final(self).spec_shell().spec_form().profile_choice().spec_selected_text() == "Gaming"@
                    &&& final(self).same_session(old(self))
                    &&& final(self).spec_servers() == old(self).spec_servers()
                },
                UiAction::SaveServer => {
                    &&& final(self).same_session(old(self))
                    &&& if old(self).spec_shell().spec_modal().form_open() {
                        exists|data: ServerFormData, r: Result<Option<ServerLogEntry>, FormError>|
                            #[trigger] saved_as(
                                old(self).spec_shell(),
                                old(self).spec_servers(),
                                final(self).spec_shell(),
                                final(self).spec_servers(),
                                data,
                                r,
                                e,
                            )
                    } else {
                        &&& e is Nothing
                        &&& final(self).spec_shell() == old(self).spec_shell()
                        &&& final(self).spec_servers() == old(self).spec_servers()
                    }
                },
                UiAction::CancelModal => {
                    &&& e is Nothing
                    &&& final(self).spec_shell().spec_modal().open_modal() is None
                    &&& !final(self).spec_shell().spec_form().spec_visible()
                    &&& final(self).spec_shell().spec_tab() == old(self).spec_shell().spec_tab()
                    &&& final(self).spec_shell().spec_grid() == old(self).spec_shell().spec_grid()
                    &&& final(self).same_session(old(self))
                    &&& final(self).spec_servers() == old(self).spec_servers()
                },
                UiAction::EditServer(id) => {
                    &&& e is Nothing
                    &&& final(self).same_session(old(self))
                    &&& final(self).spec_servers() == old(self).spec_servers()
                    &&& if find_server(old(self).spec_servers(), id) >= 0 {
                        let s = old(self).spec_servers()[find_server(old(self).spec_servers(), id)];
                        &&& shell_with_modal(
                            final(self).spec_shell(),
                            old(self).spec_shell(),
                            ActiveModal::ServerForm { mode: FormMode::Edit { server_id: id } },
                        )
                        &&& final(self).spec_shell().spec_form().spec_editing() == Some(id)
                        &&& final(self).spec_shell().spec_form().name_field().content() == s.display_name@
                        &&& final(self).spec_shell().spec_form().address_field().content() == s.address@
                        &&& final(self).spec_shell().spec_form().key_field().content() == match s.noise_public_key {
                            Some(k) => k@,
                            None => Seq::<char>::empty(),
                        }
                        &&& (crate::server_form::form_profile_options().contains(s.default_profile@)
                            ==> final(self).spec_shell().spec_form().profile_choice().spec_selected_text()
                            == s.default_profile@)
                    } else {
                        final(self).spec_shell() == old(self).spec_shell()
                    }
                },
                UiAction::DeleteServer(id) => {
                    &&& e is Nothing
                    &&& final(self).same_session(old(self))
                    &&& final(self).spec_servers() == old(self).spec_servers()
                    &&& if find_server(old(self).spec_servers(), id) >= 0 {
                        &&& final(self).spec_shell().spec_modal().open_modal() matches Some(
                            ActiveModal::ConfirmDelete { server_id, name },
                        ) && server_id == id && name@ == old(self).spec_servers()[find_server(
                            old(self).spec_servers(),
                            id,
                        )].display_name@
                        &&& !final(self).spec_shell().spec_form().spec_visible()
                        &&& final(self).spec_shell().spec_tab() == old(self).spec_shell().spec_tab()
                        &&& final(self).spec_shell().spec_grid() == old(self).spec_shell().spec_grid()
                    } else {
                        final(self).spec_shell() == old(self).spec_shell()
                    }
                },
                UiAction::ConfirmDeleteServer(id) => {
                    &&& e == AppEffect::Persist(ServerLogEntry::Delete { id })
                    &&& final(self).spec_servers() == apply_server_entry(
                        old(self).spec_servers(),
                        ServerLogEntry::Delete { id },
                    )
                    &&& shell_refreshed_and_closed(
                        final(self).spec_shell(),
                        old(self).spec_shell(),
                        final(self).spec_servers(),
                    )
                    &&& final(self).same_session(old(self))
                },
                UiAction::CloseOverlay => {
                    &&& e is Nothing
                    &&& final(self).spec_flow().ui() == UiState::Stream
                    &&& final(self).spec_flow().pending() == old(self).spec_flow().pending()
                    &&& !final(self).spec_capsule().is_visible()
                    &&& final(self).spec_shell() == old(self).spec_shell()
                    &&& final(self).spec_servers() == old(self).spec_servers()
                },
                UiAction::SwitchProfile(_) | UiAction::UpdateQuality { .. } | UiAction::SetBandwidthLimit(_)
                | UiAction::SelectMonitor(_) => {
                    &&& e matches AppEffect::Control(c) && spec_control_command_for(action) == Some(c)
                    &&& *final(self) == *old(self)
                },
                _ => {
                    &&& e is Nothing
                    &&& *final(self) == *old(self)
                },
            },
    {
        match action {
            UiAction::Connect { address, .. } => {
                self.shell.set_tab(LauncherTab::Home);
                let normalized = normalize_address(address.as_str());
                AppEffect::Dial { requested: address, address: normalized }
            },
            UiAction::SwitchServer { address } => {
                self.shell.set_tab(LauncherTab::Home);
                let normalized = normalize_address(address.as_str());
                AppEffect::Dial { requested: address, address: normalized }
            },
            UiAction::OpenLauncherTab(t) => {
                self.shell.set_tab(t);
                AppEffect::Nothing
            },
            UiAction::Disconnect => {
                self.flow.disconnect();
                self.shell.set_tab(LauncherTab::Home);
                self.capsule.dismiss();
                AppEffect::EndSession
            },
            UiAction::AddServer => {
                self.shell.show_modal(ActiveModal::ServerForm { mode: FormMode::Add });
                AppEffect::Nothing
            },
            UiAction::SaveServer => {
                let data = match self.shell.server_form_data() {
                    Some(d) => d,
                    None => return AppEffect::Nothing,
                };
                let editing = self.shell.server_form_editing_id();
                let ghost d0 = data;
                let r = save_server_form(&mut self.server_store, editing, data);
                let ghost r0 = r;
                let e = match r {
                    Ok(entry) => {
                        self.shell.set_servers(self.server_store.servers());
                        self.shell.dismiss_modal();
                        match entry {
                            Some(en) => AppEffect::Persist(en),
                            None => AppEffect::Nothing,
                        }
                    },
                    Err(_) => AppEffect::Nothing,
                };
                proof {
                    assert(saved_as(
                        old(self).spec_shell(),
                        old(self).spec_servers(),
                        self.spec_shell(),
                        self.spec_servers(),
                        d0,
                        r0,
                        e,
                    ));
                }
                e
            },
            UiAction::CancelModal => {
                self.shell.dismiss_modal();
                AppEffect::Nothing
            },
            UiAction::EditServer(id) => {
                proof {
                    lemma_find_server(self.server_store@, id);
                }
                match self.server_store.get(id) {
                    Some(server) => {
                        self.shell.set_server_form_editing(server);
                        self.shell.show_modal(ActiveModal::ServerForm { mode: FormMode::Edit { server_id: id } });
                    },
                    None => {},
                }
                AppEffect::Nothing
            },
            UiAction::DeleteServer(id) => {
                proof {
                    lemma_find_server(self.server_store@, id);
                }
                match self.server_store.get(id) {
                    Some(server) => {
                        let name = server.display_name.clone();
                        self.shell.show_modal(ActiveModal::ConfirmDelete { server_id: id, name });
                    },
                    None => {},
                }
                AppEffect::Nothing
            },
            UiAction::ConfirmDeleteServer(id) => {
                let entry = self.server_store.delete(id);
                self.shell.set_servers(self.server_store.servers());
                self.shell.dismiss_modal();
                AppEffect::Persist(entry)
            },
            UiAction::CloseOverlay => {
                self.flow.close_overlay();
                self.capsule.dismiss();
                AppEffect::Nothing
            },
            UiAction::SwitchProfile(_) | UiAction::UpdateQuality { .. } | UiAction::SetBandwidthLimit(_)
            | UiAction::SelectMonitor(_) => {
                match control_command_for(&action) {
                    Some(c) => AppEffect::Control(c),
                    None => AppEffect::Nothing,
                }
            },
            _ => AppEffect::Nothing,
        }
    }

    /// A left click while a modal is open (see `LauncherShell::modal_click`).
    pub fn modal_click(&mut self, form: FormHits, on_cancel: bool, on_confirm: bool, inside_panel: bool) -> (r:
        EventResponse)
        requires
            old(self).wf(),
            old(self).spec_shell().spec_modal().open_modal() is Some,
        ensures
            final(self).wf(),
            ({
                let m = old(self).spec_shell().spec_modal().open_modal().unwrap();
                let after = final(self).spec_shell().spec_modal();
                let before = old(self).spec_shell().spec_modal();
                let f0 = old(self).spec_shell().spec_form();
                let f1 = final(self).spec_shell().spec_form();
                if before.form_open() && f0.takes_click(form) {
                    &&& f0.clicked(&f1, form, r)
                    &&& after.open_modal() == before.open_modal()
                } else if m is ConfirmDelete && on_cancel {
                    r matches EventResponse::Action(UiAction::CancelModal) && after.open_modal() == before.open_modal()
                } else if m is ConfirmDelete && on_confirm {
                    r matches EventResponse::Action(UiAction::ConfirmDeleteServer(id)) && id
                        == m->ConfirmDelete_server_id && after.open_modal() == before.open_modal()
                } else if !inside_panel {
                    r is Consumed && after.open_modal() is None
                } else {
                    r is Ignored && after.open_modal() == before.open_modal()
                }
            }),
            final(self).spec_shell().spec_tab() == old(self).spec_shell().spec_tab(),
            final(self).spec_shell().spec_grid() == old(self).spec_shell().spec_grid(),
            final(self).same_session(old(self)),
            final(self).spec_servers() == old(self).spec_servers(),
    {
        self.shell.modal_click(form, on_cancel, on_confirm, inside_panel)
    }

    /// A typed character for the launcher (see `LauncherShell::type_char`).
    pub fn type_char(&mut self, ch: char) -> (r: Option<EventResponse>)
        requires
            old(self).wf(),
            old(self).spec_shell().spec_form().name_field().content().len() < usize::MAX,
            old(self).spec_shell().spec_form().address_field().content().len() < usize::MAX,
            old(self).spec_shell().spec_form().key_field().content().len() < usize::MAX,
        ensures
            final(self).wf(),
            old(self).spec_shell().spec_modal().open_modal() is Some ==> (r matches Some(rf)
                && old(self).spec_shell().spec_form().char_typed(&final(self).spec_shell().spec_form(), ch, rf)),
            old(self).spec_shell().spec_modal().open_modal() is None ==> r is None && final(self).spec_shell().spec_form()
                == old(self).spec_shell().spec_form(),
            final(self).spec_shell().spec_focused() == old(self).spec_shell().spec_focused(),
            final(self).spec_shell().spec_modal() == old(self).spec_shell().spec_modal(),
            final(self).spec_shell().spec_tab() == old(self).spec_shell().spec_tab(),
            final(self).spec_shell().spec_grid() == old(self).spec_shell().spec_grid(),
            final(self).same_session(old(self)),
            final(self).spec_servers() == old(self).spec_servers(),
    {
        self.shell.type_char(ch)
    }

    /// A keyboard event at `now_ms`: `is_control` for the Control key,
    /// `pressed` for a press. Control feeds the double-tap detector; a
    /// completed double tap turns the stream into the overlay and shows the
    /// capsule, or turns the overlay back into the stream and hides the
    /// capsule (elsewhere it changes nothing). Any other key press cancels
    /// the double tap. A press then goes to the launcher while it is shown,
    /// to the host while the plain stream is shown, and nowhere otherwise.
    pub fn key_event(&mut self, is_control: bool, pressed: bool, now_ms: u64) -> (route: KeyRoute)
        requires
            old(self).wf(),
        ensures
            final(self).wf(),
            final(self).spec_shell() == old(self).spec_shell(),
            final(self).spec_servers() == old(self).spec_servers(),
            final(self).spec_profiles() == old(self).spec_profiles(),
            final(self).spec_flow().pending() == old(self).spec_flow().pending(),
            final(self).spec_flow().window() == old(self).spec_flow().window(),
            is_control && pressed ==> (final(self).spec_flow().ui(), final(self).spec_flow().tap())
                == control_press_step(
                old(self).spec_flow().ui(),
                old(self).spec_flow().tap(),
                old(self).spec_flow().window(),
                now_ms,
            ),
            is_control && !pressed ==> final(self).spec_flow().ui() == old(self).spec_flow().ui()
                && final(self).spec_flow().tap() == old(self).spec_flow().tap(),
            !is_control ==> final(self).spec_flow().ui() == old(self).spec_flow().ui()
                && final(self).spec_flow().tap() == if pressed {
                TapState::Idle
            } else {
                old(self).spec_flow().tap()
            },
            old(self).spec_flow().ui() == UiState::Stream && final(self).spec_flow().ui() == UiState::Overlay
                ==> final(self).spec_capsule().is_visible() && final(self).spec_capsule().active()
                == old(self).spec_capsule().active(),
            old(self).spec_flow().ui() == UiState::Overlay && final(self).spec_flow().ui() == UiState::Stream
                ==> !final(self).spec_capsule().is_visible() && final(self).spec_capsule().active() is None,
            final(self).spec_flow().ui() == old(self).spec_flow().ui() ==> final(self).spec_capsule()
                == old(self).spec_capsule(),
            route == if pressed && final(self).spec_flow().ui().spec_shows_launcher() {
                KeyRoute::Launcher
            } else if pressed && final(self).spec_flow().ui().spec_forwards_input() {
                KeyRoute::Remote
            } else {
                KeyRoute::Nothing
            },
    {
        if is_control {
            let before = self.flow.ui_state();
            let toggled = self.flow.control_key(pressed, now_ms);
            if toggled {
                let after = self.flow.ui_state();
                if before == UiState::Stream && after == UiState::Overlay {
                    self.capsule.show();
                } else if before == UiState::Overlay && after == UiState::Stream {
                    self.capsule.dismiss();
                }
            }
        } else {
            self.flow.other_key(pressed);
        }
        let ui = self.flow.ui_state();
        if pressed && ui.shows_launcher() {
            KeyRoute::Launcher
        } else if pressed && ui.forwards_input() {
            KeyRoute::Remote
        } else {
            KeyRoute::Nothing
        }
    }

    /// The plan for drawing the next frame: the stream while it is shown
    /// (plain or under the overlay), the capsule while the overlay is open,
    /// the launcher while it is shown. Drawing the overlay shows the capsule.
    pub fn frame_plan(&mut self) -> (plan: FramePlan)
        requires
            old(self).wf(),
        ensures
            final(self).wf(),
            final(self).spec_shell() == old(self).spec_shell(),
            final(self).spec_flow() == old(self).spec_flow(),
            final(self).spec_servers() == old(self).spec_servers(),
            final(self).spec_profiles() == old(self).spec_profiles(),
            plan.draw_stream == old(self).spec_flow().ui().spec_shows_stream(),
            plan.draw_capsule == old(self).spec_flow().ui().spec_shows_overlay(),
            plan.draw_launcher == old(self).spec_flow().ui().spec_shows_launcher(),
            old(self).spec_flow().ui().spec_shows_overlay() ==> final(self).spec_capsule().is_visible()
                && final(self).spec_capsule().active() == old(self).spec_capsule().active(),
            !old(self).spec_flow().ui().spec_shows_overlay() ==> final(self).spec_capsule()
                == old(self).spec_capsule(),
    {
        let ui = self.flow.ui_state();
        let overlay = ui.shows_overlay();
        if overlay {
            self.capsule.show();
        }
        FramePlan {
            draw_stream: ui.shows_stream(),
            draw_capsule: overlay,
            draw_launcher: ui.shows_launcher(),
        }
    }

    /// The caller tried to dial `address`, asked for as `requested`:
    /// `address_ok` tells whether it could be read as a socket address. The
    /// profile to apply is resolved from the saved servers and profiles,
    /// and the flow shows the connecting state when dialling goes ahead.
    pub fn start_connection(&mut self, requested: &str, address: &str, address_ok: bool)
        requires
            old(self).wf(),
        ensures
            final(self).wf(),
            final(self).spec_flow().pending() == match old(self).spec_profiles() {
                Some(ps) => resolved_profile(
                    ps,
                    preferred_profile_name(Some(old(self).spec_servers()), requested@, address@),
                ),
                None => None,
            },
            final(self).spec_flow().ui() == if address_ok {
                UiState::Connecting
            } else {
                old(self).spec_flow().ui()
            },
            final(self).spec_flow().tap() == old(self).spec_flow().tap(),
            final(self).spec_shell() == old(self).spec_shell(),
            final(self).spec_capsule() == old(self).spec_capsule(),
            final(self).spec_servers() == old(self).spec_servers(),
            final(self).spec_profiles() == old(self).spec_profiles(),
    {
        let profile = resolve_profile_for_connection(
            Some(&self.server_store),
            self.profile_store.as_ref(),
            requested,
            address,
        );
        self.flow.begin_connect(profile, address_ok);
    }

    /// The connection task could not be started: back to the launcher.
    pub fn connect_not_started(&mut self)
        requires
            old(self).wf(),
        ensures
            final(self).wf(),
            final(self).spec_flow().ui() == UiState::Launcher,
            final(self).spec_flow().pending() == old(self).spec_flow().pending(),
            final(self).spec_shell() == old(self).spec_shell(),
            final(self).spec_capsule() == old(self).spec_capsule(),
            final(self).spec_servers() == old(self).spec_servers(),
            final(self).spec_profiles() == old(self).spec_profiles(),
    {
        self.flow.connect_not_started();
    }

    /// The connection task reported back: when connected, the stream is
    /// shown and the commands that apply the pending profile are returned;
    /// otherwise the launcher is shown again and nothing is sent.
    pub fn connection_result(&mut self, connected: bool) -> (cmds: Vec<ControlCommand>)
        requires
            old(self).wf(),
        ensures
            final(self).wf(),
            final(self).spec_flow().ui() == if connected { UiState::Stream } else { UiState::Launcher },
            final(self).spec_flow().pending() is None,
            connected ==> match old(self).spec_flow().pending() {
                Some(p) => applies_profile(cmds@, p),
                None => cmds@.len() == 0,
            },
            !connected ==> cmds@.len() == 0,
            final(self).spec_shell() == old(self).spec_shell(),
            final(self).spec_capsule() == old(self).spec_capsule(),
            final(self).spec_servers() == old(self).spec_servers(),
            final(self).spec_profiles() == old(self).spec_profiles(),
    {
        if connected {
            self.flow.connected()
        } else {
            self.flow.connect_failed();
            Vec::new()
        }
    }
}

} // verus!
