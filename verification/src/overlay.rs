//! The in-session overlay capsule: which detail panel is open, and what a
//! click on the capsule does once the caller has found the regions under
//! the pointer.

use vstd::prelude::*;
use crate::widgets::{EventResponse, UiAction};

verus! {

/// The detail panels of the capsule.
#[derive(Debug, Clone, Copy, PartialEq, Eq, Structural)]
pub enum CapsulePanel {
    Performance,
    Quality,
    Connection,
    Display,
}

pub open spec fn spec_panel_name(p: CapsulePanel) -> Seq<char> {
    match p {
        CapsulePanel::Performance => "performance"@,
        CapsulePanel::Quality => "quality"@,
        CapsulePanel::Connection => "connection"@,
        CapsulePanel::Display => "display"@,
    }
}

/// The panel a stats-bar request names, if any.
pub open spec fn spec_panel_by_name(name: Seq<char>) -> Option<CapsulePanel> {
    if name == "performance"@ {
        Some(CapsulePanel::Performance)
    } else if name == "quality"@ {
        Some(CapsulePanel::Quality)
    } else if name == "connection"@ {
        Some(CapsulePanel::Connection)
    } else if name == "display"@ {
        Some(CapsulePanel::Display)
    } else {
        None
    }
}

/// The name by which the stats bar asks for a panel.
pub fn panel_name(p: CapsulePanel) -> (s: &'static str)
    ensures
        s@ == spec_panel_name(p),
{
    match p {
        CapsulePanel::Performance => "performance",
        CapsulePanel::Quality => "quality",
        CapsulePanel::Connection => "connection",
        CapsulePanel::Display => "display",
    }
}

/// The panel named `name`, if any.
pub fn panel_by_name(name: &str) -> (p: Option<CapsulePanel>)
    ensures
        p == spec_panel_by_name(name@),
{
    let n = String::from_str(name);
    proof {
        reveal_strlit("performance");
        reveal_strlit("quality");
        reveal_strlit("connection");
        reveal_strlit("display");
    }
    if n == String::from_str("performance") {
        Some(CapsulePanel::Performance)
    } else if n == String::from_str("quality") {
        Some(CapsulePanel::Quality)
    } else if n == String::from_str("connection") {
        Some(CapsulePanel::Connection)
    } else if n == String::from_str("display") {
        Some(CapsulePanel::Display)
    } else {
        None
    }
}

pub open spec fn spec_panel_label(p: CapsulePanel) -> Seq<char> {
    match p {
        CapsulePanel::Performance => "Performance"@,
        CapsulePanel::Quality => "Quality"@,
        CapsulePanel::Connection => "Connection"@,
        CapsulePanel::Display => "Display"@,
    }
}

/// Title of a panel in the sidebar.
pub fn panel_label(p: CapsulePanel) -> (s: &'static str)
    ensures
        s@ == spec_panel_label(p),
{
    match p {
        CapsulePanel::Performance => "Performance",
        CapsulePanel::Quality => "Quality",
        CapsulePanel::Connection => "Connection",
        CapsulePanel::Display => "Display",
    }
}

/// The glyph of a panel in the icon font.
pub open spec fn spec_panel_icon(p: CapsulePanel) -> char {
    match p {
        CapsulePanel::Performance => '\u{EA0B}',
        CapsulePanel::Quality => '\u{E8B5}',
        CapsulePanel::Connection => '\u{E1B2}',
        CapsulePanel::Display => '\u{E30B}',
    }
}

/// Icon of a panel in the sidebar.
pub fn panel_icon(p: CapsulePanel) -> (c: char)
    ensures
        c == spec_panel_icon(p),
{
    match p {
        CapsulePanel::Performance => '\u{EA0B}',
        CapsulePanel::Quality => '\u{E8B5}',
        CapsulePanel::Connection => '\u{E1B2}',
        CapsulePanel::Display => '\u{E30B}',
    }
}

/// Which parts of the overlay lie under a left click. `nav` is the first
/// sidebar entry under it, if any.
#[derive(Debug, Clone, Copy)]
pub struct CapsuleHit {
    pub disconnect: bool,
    pub nav: Option<CapsulePanel>,
    pub sidebar: bool,
    pub panel: bool,
    pub capsule: bool,
    pub bottom_bar: bool,
}

/// Visibility of the capsule and its open panel.
pub struct CapsuleState {
    visible: bool,
    active_panel: Option<CapsulePanel>,
}

/// What a click does to the open panel, and the answer: Disconnect first,
/// then a sidebar entry opens its panel, the sidebar swallows clicks, a
/// click outside everything closes the open panel, or with no panel open
/// closes the overlay.
pub open spec fn click_outcome(active: Option<CapsulePanel>, hit: CapsuleHit) -> (Option<CapsulePanel>, int) {
    if hit.disconnect {
        (active, 2)
    } else if hit.nav is Some {
        (hit.nav, 1)
    } else if hit.sidebar {
        (active, 1)
    } else if active is Some {
        if !hit.panel && !hit.capsule && !hit.sidebar && !hit.bottom_bar {
            (None, 1)
        } else {
            (active, 0)
        }
    } else if !hit.capsule && !hit.disconnect && !hit.sidebar && !hit.bottom_bar {
        (active, 3)
    } else {
        (active, 0)
    }
}

/// The response coded by `click_outcome`: 0 ignored, 1 consumed, 2 the
/// disconnect action, 3 the close-overlay action.
pub open spec fn response_code(r: EventResponse) -> int {
    match r {
        EventResponse::Ignored => 0,
        EventResponse::Consumed => 1,
        EventResponse::Action(UiAction::Disconnect) => 2,
        EventResponse::Action(UiAction::CloseOverlay) => 3,
        EventResponse::Action(_) => 4,
    }
}

impl CapsuleState {
    pub closed spec fn is_visible(&self) -> bool {
        self.visible
    }

    pub closed spec fn active(&self) -> Option<CapsulePanel> {
        self.active_panel
    }

    /// Hidden, with no panel open.
    pub fn new() -> (s: CapsuleState)
        ensures
            !s.is_visible(),
            s.active() is None,
    {
        CapsuleState { visible: false, active_panel: None }
    }

    pub fn visible(&self) -> (b: bool)
        ensures
            b == self.is_visible(),
    {
        self.visible
    }

    pub fn active_panel(&self) -> (p: Option<CapsulePanel>)
        ensures
            p == self.active(),
    {
        self.active_panel
    }

    /// The panel highlighted in the sidebar: the open one, else Performance.
    pub fn selected_panel(&self) -> (p: CapsulePanel)
        ensures
            p == match self.active() {
                Some(q) => q,
                None => CapsulePanel::Performance,
            },
    {
        match self.active_panel {
            Some(q) => q,
            None => CapsulePanel::Performance,
        }
    }

    pub fn show(&mut self)
        ensures
            final(self).is_visible(),
            final(self).active() == old(self).active(),
    {
        self.visible = true;
    }

    /// Hiding also closes the open panel.
    pub fn dismiss(&mut self)
        ensures
            !final(self).is_visible(),
            final(self).active() is None,
    {
        self.visible = false;
        self.active_panel = None;
    }

    pub fn set_active_panel(&mut self, panel: Option<CapsulePanel>)
        ensures
            final(self).active() == panel,
            final(self).is_visible() == old(self).is_visible(),
    {
        self.active_panel = panel;
    }

    /// Open the panel the stats bar asked for by name; an unknown name
    /// closes the open panel.
    pub fn open_panel_by_name(&mut self, name: &str)
        ensures
            final(self).active() == spec_panel_by_name(name@),
            final(self).is_visible() == old(self).is_visible(),
    {
        let p = panel_by_name(name);
        self.active_panel = p;
    }

    /// A left click that no panel handled, given the regions under it. A
    /// hidden capsule ignores it.
    pub fn click(&mut self, hit: CapsuleHit) -> (r: EventResponse)
        ensures
            !old(self).is_visible() ==> r is Ignored && final(self).active() == old(self).active(),
            old(self).is_visible() ==> final(self).active() == click_outcome(old(self).active(), hit).0
                && response_code(r) == click_outcome(old(self).active(), hit).1,
            final(self).is_visible() == old(self).is_visible(),
    {
        if !self.visible {
            return EventResponse::Ignored;
        }
        if hit.disconnect {
            return EventResponse::Action(UiAction::Disconnect);
        }
        if let Some(p) = hit.nav {
            self.active_panel = Some(p);
            return EventResponse::Consumed;
        }
        if hit.sidebar {
            return EventResponse::Consumed;
        }
        if self.active_panel.is_some() {
            if !hit.panel && !hit.capsule && !hit.sidebar && !hit.bottom_bar {
                self.active_panel = None;
                return EventResponse::Consumed;
            }
        } else if !hit.capsule && !hit.disconnect && !hit.sidebar && !hit.bottom_bar {
            return EventResponse::Action(UiAction::CloseOverlay);
        }
        EventResponse::Ignored
    }
}

/// Asking for a panel by its own name opens exactly that panel.
pub proof fn lemma_panel_name_roundtrip(p: CapsulePanel)
    ensures
        spec_panel_by_name(spec_panel_name(p)) == Some(p),
{
    reveal_strlit("performance");
    reveal_strlit("quality");
    reveal_strlit("connection");
    reveal_strlit("display");
    assert("quality"@ != "performance"@ && "connection"@ != "performance"@ && "display"@ != "performance"@) by {
        assert("quality"@.len() != "performance"@.len());
        assert("connection"@.len() != "performance"@.len());
        assert("display"@.len() != "performance"@.len());
    }
    assert("connection"@ != "quality"@ && "display"@ != "quality"@ && "display"@ != "connection"@) by {
        assert("connection"@.len() != "quality"@.len());
        assert("display"@[0] != "quality"@[0]);
        assert("display"@.len() != "connection"@.len());
    }
}

/// A click outside every part of the overlay closes the open panel, or,
/// with none open, the overlay itself.
pub proof fn lemma_click_outside(active: Option<CapsulePanel>)
    ensures
        ({
            let hit = CapsuleHit {
                disconnect: false,
                nav: None,
                sidebar: false,
                panel: false,
                capsule: false,
                bottom_bar: false,
            };
            click_outcome(active, hit) == if active is Some {
                (None::<CapsulePanel>, 1int)
            } else {
                (None::<CapsulePanel>, 3int)
            }
        }),
{
}

/// The capsule's resolution badge for a stream `width` pixels wide: "4K"
/// from 3840, "1440P" from 2560, "1080P" below.
pub open spec fn spec_resolution_label(width: u32) -> Seq<char> {
    if width >= 3840 {
        "4K"@
    } else if width >= 2560 {
        "1440P"@
    } else {
        "1080P"@
    }
}

pub fn resolution_label(width: u32) -> (s: &'static str)
    ensures
        s@ == spec_resolution_label(width),
{
    if width >= 3840 {
        "4K"
    } else if width >= 2560 {
        "1440P"
    } else {
        "1080P"
    }
}

/// A left click on the stats bar that its profile drop-down did not take:
/// a panel button asks for that panel by name, elsewhere on the bar the
/// click is consumed, outside it is ignored.
pub fn stats_bar_click(button: Option<CapsulePanel>, inside: bool) -> (r: EventResponse)
    ensures
        match button {
            Some(p) => r matches EventResponse::Action(UiAction::OpenPanel(name)) && name@ == spec_panel_name(p),
            None => if inside { r is Consumed } else { r is Ignored },
        },
{
    match button {
        Some(p) => EventResponse::Action(UiAction::OpenPanel(String::from_str(panel_name(p)))),
        None => if inside {
            EventResponse::Consumed
        } else {
            EventResponse::Ignored
        },
    }
}

impl CapsuleState {
    /// What the capsule does with the stats bar's answer to an event: a
    /// panel request opens that panel and is consumed; other actions pass
    /// up; a consumed event stays consumed. `None` when the stats bar
    /// ignored the event, so that the panels and the capsule get it.
    pub fn route_stats_bar(&mut self, r: EventResponse) -> (out: Option<EventResponse>)
        ensures
            final(self).is_visible() == old(self).is_visible(),
            match r {
                EventResponse::Action(UiAction::OpenPanel(name)) => out matches Some(EventResponse::Consumed)
                    && final(self).active() == spec_panel_by_name(name@),
                EventResponse::Action(a) => out == Some(EventResponse::Action(a)) && final(self).active()
                    == old(self).active(),
                EventResponse::Consumed => out matches Some(EventResponse::Consumed) && final(self).active()
                    == old(self).active(),
                EventResponse::Ignored => out is None && final(self).active() == old(self).active(),
            },
    {
        match r {
            EventResponse::Action(UiAction::OpenPanel(name)) => {
                self.open_panel_by_name(name.as_str());
                Some(EventResponse::Consumed)
            },
            EventResponse::Action(a) => Some(EventResponse::Action(a)),
            EventResponse::Consumed => Some(EventResponse::Consumed),
            EventResponse::Ignored => None,
        }
    }
}

/// A click on a stats-bar button, routed through the capsule, opens the
/// panel of that button.
pub proof fn lemma_stats_bar_button_opens_panel(p: CapsulePanel, name: String)
    requires
        name@ == spec_panel_name(p),
    ensures
        spec_panel_by_name(name@) == Some(p),
{
    lemma_panel_name_roundtrip(p);
}

} // verus!
