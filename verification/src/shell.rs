//! The launcher shell: which tab is open, the modal layer, keyboard focus,
//! the settings section, and how switching tabs configures the host grid.

use vstd::prelude::*;
use crate::actions::ModalLayer;
use crate::cards::{card_mode_for, cards_show_in_recency_order, relaid, CardGrid};
use crate::launcher::{
    focus_after_shift_tab, focus_after_tab, spec_focus_after_shift_tab, spec_focus_after_tab,
    ActiveModal, CardFilter, FormMode, GridMode, LauncherTab, SettingsSection,
};
use crate::server_form::{same_choice, same_input, same_text, FormHits, ServerForm, ServerFormData};
use crate::servers::SavedServer;
use crate::ui_state::UiState;
use crate::widgets::{EventResponse, KeyCode, UiAction};

verus! {

/// How switching to `tab` leaves the grid `g`, which was `before` (after
/// the filter reset that Home brings): the saved-hosts tab shows every
/// card in a grid with the "add" card and the filter chips; Profiles and
/// Settings show every card without them; Home leaves the grid alone.
pub open spec fn grid_for_tab(g: CardGrid, before: CardGrid, tab: LauncherTab) -> bool {
    &&& g.spec_filter() == before.spec_filter()
    &&& g.spec_cards().len() == before.spec_cards().len()
    &&& match tab {
        LauncherTab::SavedConnections => {
            &&& g.spec_mode() == GridMode::Grid
            &&& g.spec_limit() is None
            &&& g.spec_add_card()
            &&& g.spec_filters_shown()
            &&& (before.spec_mode() != GridMode::Grid ==> forall|i: int|
                0 <= i < g.spec_cards().len() ==> #[trigger] relaid(
                    g.spec_cards()[i],
                    before.spec_cards()[i],
                    card_mode_for(GridMode::Grid),
                ))
            &&& (before.spec_mode() == GridMode::Grid ==> g.spec_cards() == before.spec_cards())
        },
        LauncherTab::Home => {
            &&& g.spec_mode() == before.spec_mode()
            &&& g.spec_limit() == before.spec_limit()
            &&& g.spec_add_card() == before.spec_add_card()
            &&& g.spec_filters_shown() == before.spec_filters_shown()
            &&& g.spec_cards() == before.spec_cards()
        },
        _ => {
            &&& g.spec_mode() == before.spec_mode()
            &&& g.spec_limit() is None
            &&& !g.spec_add_card()
            &&& !g.spec_filters_shown()
            &&& g.spec_cards() == before.spec_cards()
        },
    }
}

/// The grid with its filter back to "All", all else as in `g`.
pub open spec fn filter_reset(g: CardGrid, before: CardGrid) -> bool {
    &&& g.spec_filter() == CardFilter::All
    &&& g.spec_cards() == before.spec_cards()
    &&& g.spec_limit() == before.spec_limit()
    &&& g.spec_add_card() == before.spec_add_card()
    &&& g.spec_filters_shown() == before.spec_filters_shown()
    &&& g.spec_mode() == before.spec_mode()
}

fn configure_grid(grid: &mut CardGrid, tab: LauncherTab)
    ensures
        grid_for_tab(*final(grid), *old(grid), tab),
{
    match tab {
        LauncherTab::Home => {},
        LauncherTab::SavedConnections => {
            grid.set_layout_mode(GridMode::Grid);
            grid.set_visible_limit(None);
            grid.set_show_add_card(true);
            grid.set_show_filters(true);
        },
        _ => {
            grid.set_visible_limit(None);
            grid.set_show_add_card(false);
            grid.set_show_filters(false);
        },
    }
}

/// The launcher around its tabs: the open tab, the modal layer, which
/// widget has keyboard focus, the top-level state it was told of, the
/// settings section, the grid of saved hosts and the server form.
pub struct LauncherShell {
    active_tab: LauncherTab,
    modal: ModalLayer,
    focused: Option<usize>,
    ui_state: UiState,
    active_section: SettingsSection,
    grid: CardGrid,
    server_form: ServerForm,
}

impl LauncherShell {
    pub closed spec fn spec_form(&self) -> ServerForm {
        self.server_form
    }

    /// The focus index can always move one further, the form's fields are
    /// sound, and the form is shown exactly while the form modal is open.
    pub open spec fn wf(&self) -> bool {
        &&& (self.spec_focused() matches Some(i) ==> i < usize::MAX)
        &&& self.spec_form().wf()
        &&& self.spec_modal().form_shown() == self.spec_modal().form_open()
        &&& self.spec_form().spec_visible() == self.spec_modal().form_shown()
    }

    pub closed spec fn spec_tab(&self) -> LauncherTab {
        self.active_tab
    }

    pub closed spec fn spec_modal(&self) -> ModalLayer {
        self.modal
    }

    pub closed spec fn spec_focused(&self) -> Option<usize> {
        self.focused
    }

    pub closed spec fn spec_ui_state(&self) -> UiState {
        self.ui_state
    }

    pub closed spec fn spec_section(&self) -> SettingsSection {
        self.active_section
    }

    pub closed spec fn spec_grid(&self) -> CardGrid {
        self.grid
    }

    /// Whether only the tab, the focus and the grid may differ from `other`.
    pub open spec fn same_frame(&self, other: &LauncherShell) -> bool {
        &&& self.spec_modal() == other.spec_modal()
        &&& self.spec_ui_state() == other.spec_ui_state()
        &&& self.spec_section() == other.spec_section()
        &&& self.spec_form() == other.spec_form()
    }

    /// The Home tab with no modal and no focus, in the launcher state, on
    /// the identity and security section, around `grid` set up for Home.
    pub fn new(grid: CardGrid) -> (s: LauncherShell)
        ensures
            s.spec_tab() == LauncherTab::Home,
            s.spec_modal().open_modal() is None,
            !s.spec_modal().form_shown(),
            s.spec_focused() is None,
            s.spec_ui_state() == UiState::Launcher,
            s.spec_section() == SettingsSection::IdentitySecurity,
            s.spec_grid() == grid,
            s.spec_form().spec_editing() is None,
            s.spec_form().name_field().content() == Seq::<char>::empty(),
            s.spec_form().address_field().content() == Seq::<char>::empty(),
            s.spec_form().key_field().content() == Seq::<char>::empty(),
            s.wf(),
    {
        LauncherShell {
            active_tab: LauncherTab::Home,
            modal: ModalLayer::new(),
            focused: None,
            ui_state: UiState::Launcher,
            active_section: SettingsSection::IdentitySecurity,
            grid,
            server_form: ServerForm::new(),
        }
    }

    pub fn active_tab(&self) -> (t: LauncherTab)
        ensures
            t == self.spec_tab(),
    {
        self.active_tab
    }

    /// Open `tab`: keyboard focus is dropped, Home brings the grid's filter
    /// back to "All", and the grid is set up for the tab.
    pub fn set_tab(&mut self, tab: LauncherTab)
        requires
            old(self).wf(),
        ensures
            final(self).wf(),
            final(self).spec_tab() == tab,
            final(self).spec_focused() is None,
            final(self).same_frame(old(self)),
            tab == LauncherTab::Home ==> filter_reset(final(self).spec_grid(), old(self).spec_grid()),
            tab != LauncherTab::Home ==> grid_for_tab(final(self).spec_grid(), old(self).spec_grid(), tab),
    {
        self.active_tab = tab;
        if tab == LauncherTab::Home {
            self.grid.reset_filter();
        }
        self.focused = None;
        configure_grid(&mut self.grid, tab);
    }

    pub fn set_ui_state(&mut self, state: UiState)
        requires
            old(self).wf(),
        ensures
            final(self).wf(),
            final(self).spec_ui_state() == state,
            final(self).spec_tab() == old(self).spec_tab(),
            final(self).spec_modal() == old(self).spec_modal(),
            final(self).spec_focused() == old(self).spec_focused(),
            final(self).spec_section() == old(self).spec_section(),
            final(self).spec_grid() == old(self).spec_grid(),
            final(self).spec_form() == old(self).spec_form(),
    {
        self.ui_state = state;
    }

    pub fn ui_state(&self) -> (s: UiState)
        ensures
            s == self.spec_ui_state(),
    {
        self.ui_state
    }

    pub fn active_section(&self) -> (s: SettingsSection)
        ensures
            s == self.spec_section(),
    {
        self.active_section
    }

    pub fn focused(&self) -> (f: Option<usize>)
        ensures
            f == self.spec_focused(),
    {
        self.focused
    }

    pub fn grid(&self) -> (g: &CardGrid)
        ensures
            *g == self.spec_grid(),
    {
        &self.grid
    }

    pub fn server_form(&self) -> (f: &ServerForm)
        ensures
            *f == self.spec_form(),
    {
        &self.server_form
    }

    /// Show `servers` in the grid, most recently used first.
    pub fn set_servers(&mut self, servers: &[SavedServer])
        requires
            old(self).wf(),
        ensures
            final(self).wf(),
            final(self).spec_tab() == old(self).spec_tab(),
            final(self).spec_focused() == old(self).spec_focused(),
            final(self).same_frame(old(self)),
            final(self).spec_grid().same_settings(&old(self).spec_grid()),
            cards_show_in_recency_order(
                final(self).spec_grid().spec_cards(),
                servers@,
                card_mode_for(old(self).spec_grid().spec_mode()),
            ),
    {
        self.grid.set_servers(servers);
    }

    /// Open `modal`: the server form is shown for the form modal (emptied
    /// first for adding a server) and hidden for the others.
    pub fn show_modal(&mut self, modal: ActiveModal)
        requires
            old(self).wf(),
        ensures
            final(self).wf(),
            final(self).spec_modal().open_modal() == Some(modal),
            final(self).spec_form().spec_visible() == (modal is ServerForm),
            final(self).spec_form().profile_choice().spec_options() == old(
                self,
            ).spec_form().profile_choice().spec_options(),
            modal matches ActiveModal::ServerForm { mode: FormMode::Add } ==> {
                &&& final(self).spec_form().spec_editing() is None
                &&& final(self).spec_form().name_field().content() == Seq::<char>::empty()
                &&& final(self).spec_form().address_field().content() == Seq::<char>::empty()
                &&& final(self).spec_form().key_field().content() == Seq::<char>::empty()
                &&& final(self).spec_form().profile_choice().spec_selected_text() == "Gaming"@
            },
            !(modal matches ActiveModal::ServerForm { mode: FormMode::Add }) ==> {
                &&& final(self).spec_form().spec_editing() == old(self).spec_form().spec_editing()
                &&& final(self).spec_form().name_field() == old(self).spec_form().name_field()
                &&& final(self).spec_form().address_field() == old(self).spec_form().address_field()
                &&& final(self).spec_form().key_field() == old(self).spec_form().key_field()
                &&& final(self).spec_form().profile_choice() == old(self).spec_form().profile_choice()
            },
            final(self).spec_tab() == old(self).spec_tab(),
            final(self).spec_focused() == old(self).spec_focused(),
            final(self).spec_ui_state() == old(self).spec_ui_state(),
            final(self).spec_section() == old(self).spec_section(),
            final(self).spec_grid() == old(self).spec_grid(),
    {
        let clear = self.modal.show(modal);
        if clear {
            self.server_form.clear();
        }
        if self.modal.form_active() {
            self.server_form.show();
        } else {
            self.server_form.dismiss();
        }
    }

    /// Close the open modal and hide the form.
    pub fn dismiss_modal(&mut self)
        requires
            old(self).wf(),
        ensures
            final(self).wf(),
            final(self).spec_modal().open_modal() is None,
            !final(self).spec_form().spec_visible(),
            final(self).spec_form().spec_editing() == old(self).spec_form().spec_editing(),
            final(self).spec_form().name_field() == old(self).spec_form().name_field(),
            final(self).spec_form().address_field() == old(self).spec_form().address_field(),
            final(self).spec_form().key_field() == old(self).spec_form().key_field(),
            final(self).spec_form().profile_choice() == old(self).spec_form().profile_choice(),
            final(self).spec_tab() == old(self).spec_tab(),
            final(self).spec_focused() == old(self).spec_focused(),
            final(self).spec_ui_state() == old(self).spec_ui_state(),
            final(self).spec_section() == old(self).spec_section(),
            final(self).spec_grid() == old(self).spec_grid(),
    {
        self.server_form.dismiss();
        self.modal.dismiss();
    }

    pub fn has_modal(&self) -> (b: bool)
        ensures
            b == (self.spec_modal().open_modal() is Some),
    {
        self.modal.has_modal()
    }

    pub fn active_modal(&self) -> (m: Option<&ActiveModal>)
        ensures
            match m {
                Some(a) => self.spec_modal().open_modal() == Some(*a),
                None => self.spec_modal().open_modal() is None,
            },
    {
        self.modal.active()
    }

    /// Fill the server form from a saved server for editing (see
    /// `ServerForm::set_editing`).
    pub fn set_server_form_editing(&mut self, server: &SavedServer)
        requires
            old(self).wf(),
        ensures
            final(self).wf(),
            final(self).spec_form().spec_editing() == Some(server.id),
            final(self).spec_form().name_field().content() == server.display_name@,
            final(self).spec_form().address_field().content() == server.address@,
            final(self).spec_form().key_field().content() == match server.noise_public_key {
                Some(k) => k@,
                None => Seq::<char>::empty(),
            },
            crate::server_form::form_profile_options().contains(server.default_profile@)
                ==> final(self).spec_form().profile_choice().spec_selected_text() == server.default_profile@,
            final(self).spec_form().spec_visible() == old(self).spec_form().spec_visible(),
            final(self).spec_tab() == old(self).spec_tab(),
            final(self).spec_focused() == old(self).spec_focused(),
            final(self).spec_modal() == old(self).spec_modal(),
            final(self).spec_ui_state() == old(self).spec_ui_state(),
            final(self).spec_section() == old(self).spec_section(),
            final(self).spec_grid() == old(self).spec_grid(),
    {
        self.server_form.set_editing(server);
    }

    /// The form's data while the form modal is open.
    pub fn server_form_data(&self) -> (d: Option<ServerFormData>)
        ensures
            match d {
                Some(data) => {
                    &&& self.spec_modal().form_open()
                    &&& data.display_name@ == self.spec_form().name_field().content()
                    &&& data.address@ == self.spec_form().address_field().content()
                    &&& match data.noise_key {
                        Some(k) => self.spec_form().key_field().content().len() > 0 && k@
                            == self.spec_form().key_field().content(),
                        None => self.spec_form().key_field().content().len() == 0,
                    }
                    &&& data.default_profile@ == self.spec_form().profile_choice().spec_selected_text()
                },
                None => !self.spec_modal().form_open(),
            },
    {
        if self.modal.form_active() {
            Some(self.server_form.form_data())
        } else {
            None
        }
    }

    /// The id of the server the form edits; none when adding.
    pub fn server_form_editing_id(&self) -> (i: Option<u128>)
        ensures
            i == self.spec_form().spec_editing(),
    {
        self.server_form.editing_id()
    }

    /// A key press. With a modal open it goes to the server form (see
    /// `ServerForm::key_down`; a hidden form ignores it). Otherwise Tab and
    /// Shift+Tab move the focus among `focusable` widgets, forward and back
    /// (wrapping), and Escape drops it, each consuming the key; other keys
    /// go on to the tab (`None`).
    pub fn key_down(&mut self, key: KeyCode, focusable: usize) -> (r: Option<EventResponse>)
        requires
            old(self).wf(),
        ensures
            final(self).wf(),
            final(self).spec_tab() == old(self).spec_tab(),
            final(self).spec_modal() == old(self).spec_modal(),
            final(self).spec_ui_state() == old(self).spec_ui_state(),
            final(self).spec_section() == old(self).spec_section(),
            final(self).spec_grid() == old(self).spec_grid(),
            old(self).spec_modal().open_modal() is Some ==> (r matches Some(rf) && old(self).spec_form().key_pressed(
                &final(self).spec_form(),
                key,
                rf,
            ) && final(self).spec_focused() == old(self).spec_focused()),
            old(self).spec_modal().open_modal() is None ==> final(self).spec_form() == old(self).spec_form()
                && match key {
                KeyCode::Tab => r == Some(EventResponse::Consumed) && final(self).spec_focused()
                    == spec_focus_after_tab(old(self).spec_focused(), focusable as nat),
                KeyCode::ShiftTab => r == Some(EventResponse::Consumed) && final(self).spec_focused()
                    == spec_focus_after_shift_tab(old(self).spec_focused(), focusable as nat),
                KeyCode::Escape => r == Some(EventResponse::Consumed) && final(self).spec_focused() is None,
                _ => r is None && final(self).spec_focused() == old(self).spec_focused(),
            },
    {
        if self.modal.has_modal() {
            return Some(self.server_form.key_down(key));
        }
        match key {
            KeyCode::Tab => {
                self.focused = focus_after_tab(self.focused, focusable);
                Some(EventResponse::Consumed)
            },
            KeyCode::ShiftTab => {
                self.focused = focus_after_shift_tab(self.focused, focusable);
                Some(EventResponse::Consumed)
            },
            KeyCode::Escape => {
                self.focused = None;
                Some(EventResponse::Consumed)
            },
            _ => None,
        }
    }

    /// A typed character. With a modal open it goes to the server form
    /// (see `ServerForm::type_char`); otherwise it goes on to the tab
    /// (`None`).
    pub fn type_char(&mut self, ch: char) -> (r: Option<EventResponse>)
        requires
            old(self).wf(),
            old(self).spec_form().name_field().content().len() < usize::MAX,
            old(self).spec_form().address_field().content().len() < usize::MAX,
            old(self).spec_form().key_field().content().len() < usize::MAX,
        ensures
            final(self).wf(),
            final(self).spec_tab() == old(self).spec_tab(),
            final(self).spec_focused() == old(self).spec_focused(),
            final(self).spec_modal() == old(self).spec_modal(),
            final(self).spec_ui_state() == old(self).spec_ui_state(),
            final(self).spec_section() == old(self).spec_section(),
            final(self).spec_grid() == old(self).spec_grid(),
            old(self).spec_modal().open_modal() is Some ==> (r matches Some(rf) && old(self).spec_form().char_typed(
                &final(self).spec_form(),
                ch,
                rf,
            )),
            old(self).spec_modal().open_modal() is None ==> r is None && final(self).spec_form() == old(
                self,
            ).spec_form(),
    {
        if self.modal.has_modal() {
            Some(self.server_form.type_char(ch))
        } else {
            None
        }
    }

    /// A mouse press with no modal open drops the keyboard focus.
    pub fn pointer_down(&mut self)
        requires
            old(self).wf(),
        ensures
            final(self).wf(),
            final(self).spec_tab() == old(self).spec_tab(),
            final(self).same_frame(old(self)),
            final(self).spec_grid() == old(self).spec_grid(),
            final(self).spec_focused() == if old(self).spec_modal().open_modal() is None {
                None
            } else {
                old(self).spec_focused()
            },
    {
        if !self.modal.has_modal() {
            self.focused = None;
        }
    }

    /// A left click while a modal is open. The server form, when it is
    /// the open modal, sees it first (see `ServerForm::click`) and answers
    /// when it takes it. Otherwise, in the delete confirmation, its Cancel
    /// and Delete buttons answer with their actions; a click outside the
    /// panel closes the modal (and hides the form); anything else is
    /// ignored.
    pub fn modal_click(
        &mut self,
        form: FormHits,
        on_cancel: bool,
        on_confirm: bool,
        inside_panel: bool,
    ) -> (r: EventResponse)
        requires
            old(self).wf(),
            old(self).spec_modal().open_modal() is Some,
        ensures
            final(self).wf(),
            final(self).spec_tab() == old(self).spec_tab(),
            final(self).spec_focused() == old(self).spec_focused(),
            final(self).spec_ui_state() == old(self).spec_ui_state(),
            final(self).spec_section() == old(self).spec_section(),
            final(self).spec_grid() == old(self).spec_grid(),
            ({
                let m = old(self).spec_modal().open_modal().unwrap();
                let after = final(self).spec_modal();
                let before = old(self).spec_modal();
                let f0 = old(self).spec_form();
                let f1 = final(self).spec_form();
                if before.form_open() && f0.takes_click(form) {
                    &&& f0.clicked(&f1, form, r)
                    &&& after.open_modal() == before.open_modal()
                } else {
                    &&& f1.spec_editing() == f0.spec_editing()
                    &&& same_text(f1.name_field(), f0.name_field())
                    &&& same_text(f1.address_field(), f0.address_field())
                    &&& same_text(f1.key_field(), f0.key_field())
                    &&& same_choice(f1.profile_choice(), f0.profile_choice())
                    &&& (before.form_open() ==> !f1.name_field().has_focus() && !f1.address_field().has_focus()
                        && !f1.key_field().has_focus())
                    &&& (!before.form_open() ==> same_input(f1.name_field(), f0.name_field())
                        && same_input(f1.address_field(), f0.address_field())
                        && same_input(f1.key_field(), f0.key_field()))
                    &&& if m is ConfirmDelete && on_cancel {
                        r matches EventResponse::Action(UiAction::CancelModal) && after.open_modal()
                            == before.open_modal()
                    } else if m is ConfirmDelete && on_confirm {
                        r matches EventResponse::Action(UiAction::ConfirmDeleteServer(id)) && id
                            == m->ConfirmDelete_server_id && after.open_modal() == before.open_modal()
                    } else if !inside_panel {
                        r is Consumed && after.open_modal() is None
                    } else {
                        r is Ignored && after.open_modal() == before.open_modal()
                    }
                }
            }),
    {
        if self.modal.form_active() {
            let r = self.server_form.click(form);
            if !matches!(r, EventResponse::Ignored) {
                return r;
            }
        }
        let r = self.modal.click(on_cancel, on_confirm, inside_panel);
        if !self.modal.has_modal() {
            self.server_form.dismiss();
        }
        r
    }

    /// What the shell does with the navigation's answer to an event: a tab
    /// request opens that tab (as `set_tab`), a section request opens that
    /// settings section; any answer but "ignored" is passed on, and
    /// "ignored" gives `None` so that the open tab gets the event.
    pub fn route_nav(&mut self, r: EventResponse) -> (out: Option<EventResponse>)
        requires
            old(self).wf(),
        ensures
            final(self).wf(),
            match r {
                EventResponse::Action(UiAction::OpenLauncherTab(t)) => {
                    &&& out == Some(r)
                    &&& final(self).spec_tab() == t
                    &&& final(self).spec_focused() is None
                    &&& final(self).same_frame(old(self))
                    &&& (t == LauncherTab::Home ==> filter_reset(final(self).spec_grid(), old(self).spec_grid()))
                    &&& (t != LauncherTab::Home ==> grid_for_tab(
                        final(self).spec_grid(),
                        old(self).spec_grid(),
                        t,
                    ))
                },
                EventResponse::Action(UiAction::OpenSettingsSection(s)) => {
                    &&& out == Some(r)
                    &&& final(self).spec_section() == s
                    &&& final(self).spec_tab() == old(self).spec_tab()
                    &&& final(self).spec_focused() == old(self).spec_focused()
                    &&& final(self).spec_modal() == old(self).spec_modal()
                    &&& final(self).spec_ui_state() == old(self).spec_ui_state()
                    &&& final(self).spec_grid() == old(self).spec_grid()
                    &&& final(self).spec_form() == old(self).spec_form()
                },
                EventResponse::Ignored => {
                    &&& out is None
                    &&& *final(self) == *old(self)
                },
                _ => {
                    &&& out == Some(r)
                    &&& *final(self) == *old(self)
                },
            },
    {
        match &r {
            EventResponse::Action(UiAction::OpenLauncherTab(t)) => {
                let t = *t;
                self.set_tab(t);
                Some(r)
            },
            EventResponse::Action(UiAction::OpenSettingsSection(s)) => {
                self.active_section = *s;
                Some(r)
            },
            EventResponse::Ignored => None,
            _ => Some(r),
        }
    }
}

} // verus!
