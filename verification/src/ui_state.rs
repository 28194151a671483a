//! The top-level UI state machine: launcher, connecting, streaming, overlay.

use vstd::prelude::*;
use crate::config::LaunchMode;
use crate::double_tap::{key_down_step, DoubleTapDetector, TapState};
use crate::profiles::ProfileConfig;
use crate::session::{applies_profile, profile_default_commands, ControlCommand};

verus! {

/// Which top-level surface the client is showing.
#[derive(Debug, Clone, Copy, PartialEq, Eq, Structural)]
pub enum UiState {
    Launcher,
    Connecting,
    Stream,
    Overlay,
}

impl UiState {
    pub open spec fn spec_initial(mode: LaunchMode) -> UiState {
        match mode {
            LaunchMode::Launcher => UiState::Launcher,
            LaunchMode::DirectConnect => UiState::Connecting,
        }
    }

    /// Choose the initial state from the launch mode.
    pub fn initial(mode: LaunchMode) -> (s: UiState)
        ensures
            s == Self::spec_initial(mode),
    {
        match mode {
            LaunchMode::Launcher => UiState::Launcher,
            LaunchMode::DirectConnect => UiState::Connecting,
        }
    }

    pub open spec fn spec_shows_stream(self) -> bool {
        self is Stream || self is Overlay
    }

    pub open spec fn spec_shows_overlay(self) -> bool {
        self is Overlay
    }

    pub open spec fn spec_shows_launcher(self) -> bool {
        self is Launcher || self is Connecting
    }

    pub open spec fn spec_forwards_input(self) -> bool {
        self is Stream
    }

    /// True when the remote stream surface should be rendered.
    pub fn shows_stream(self) -> (b: bool)
        ensures
            b == self.spec_shows_stream(),
    {
        matches!(self, UiState::Stream | UiState::Overlay)
    }

    /// True when the in-session overlay panels are visible.
    pub fn shows_overlay(self) -> (b: bool)
        ensures
            b == self.spec_shows_overlay(),
    {
        matches!(self, UiState::Overlay)
    }

    /// True when the launcher or connect-progress UI is visible.
    pub fn shows_launcher(self) -> (b: bool)
        ensures
            b == self.spec_shows_launcher(),
    {
        matches!(self, UiState::Launcher | UiState::Connecting)
    }

    /// True when keyboard and mouse events go to the remote host.
    pub fn forwards_input(self) -> (b: bool)
        ensures
            b == self.spec_forwards_input(),
    {
        matches!(self, UiState::Stream)
    }
}

/// The state after a double tap of Control: the overlay opens over the
/// stream or closes back to it; elsewhere nothing changes.
pub open spec fn toggled(s: UiState) -> UiState {
    match s {
        UiState::Stream => UiState::Overlay,
        UiState::Overlay => UiState::Stream,
        other => other,
    }
}

/// What a Control press does: the new surface and detector state.
pub open spec fn control_press_step(ui: UiState, tap: TapState, window: u64, now: u64) -> (UiState, TapState) {
    let (next_tap, completed) = key_down_step(tap, window, now);
    if completed {
        (toggled(ui), TapState::Idle)
    } else {
        (ui, next_tap)
    }
}

/// The UI-thread side of a session: which surface is shown, the Control
/// double-tap detector, and the profile waiting to be applied once the
/// connection comes up.
pub struct SessionFlow {
    ui_state: UiState,
    double_tap: DoubleTapDetector,
    pending_profile: Option<ProfileConfig>,
}

impl SessionFlow {
    pub closed spec fn ui(&self) -> UiState {
        self.ui_state
    }

    pub closed spec fn tap(&self) -> TapState {
        self.double_tap.state()
    }

    pub closed spec fn window(&self) -> u64 {
        self.double_tap.window()
    }

    pub closed spec fn pending(&self) -> Option<ProfileConfig> {
        self.pending_profile
    }

    /// The flow at start-up: the surface chosen by the launch mode, an idle
    /// detector with the given window, and no pending profile.
    pub fn new(mode: LaunchMode, double_tap_window_ms: u64) -> (f: SessionFlow)
        ensures
            f.ui() == UiState::spec_initial(mode),
            f.tap() == TapState::Idle,
            f.window() == double_tap_window_ms,
            f.pending() is None,
    {
        SessionFlow {
            ui_state: UiState::initial(mode),
            double_tap: DoubleTapDetector::new(double_tap_window_ms),
            pending_profile: None,
        }
    }

    /// The surface currently shown.
    pub fn ui_state(&self) -> (s: UiState)
        ensures
            s == self.ui(),
    {
        self.ui_state
    }

    /// The profile to apply once the pending connection is up.
    pub fn pending_profile(&self) -> (p: Option<&ProfileConfig>)
        ensures
            match p {
                Some(q) => self.pending() == Some(*q),
                None => self.pending() is None,
            },
    {
        match &self.pending_profile {
            Some(q) => Some(q),
            None => None,
        }
    }

    /// A connection was requested: the resolved profile is remembered, and
    /// when the address could be parsed the flow shows the connecting state.
    pub fn begin_connect(&mut self, profile: Option<ProfileConfig>, address_ok: bool)
        ensures
            final(self).pending() == profile,
            final(self).ui() == if address_ok { UiState::Connecting } else { old(self).ui() },
            final(self).tap() == old(self).tap(),
            final(self).window() == old(self).window(),
    {
        self.pending_profile = profile;
        if address_ok {
            self.ui_state = UiState::Connecting;
        }
    }

    /// The connection task could not be started: back to the launcher.
    pub fn connect_not_started(&mut self)
        ensures
            final(self).ui() == UiState::Launcher,
            final(self).pending() == old(self).pending(),
            final(self).tap() == old(self).tap(),
            final(self).window() == old(self).window(),
    {
        self.ui_state = UiState::Launcher;
    }

    /// The connection is up: show the stream and return the commands that
    /// apply the pending profile (none when there was none).
    pub fn connected(&mut self) -> (cmds: Vec<ControlCommand>)
        ensures
            final(self).ui() == UiState::Stream,
            final(self).pending() is None,
            match old(self).pending() {
                Some(p) => applies_profile(cmds@, p),
                None => cmds@.len() == 0,
            },
            final(self).tap() == old(self).tap(),
            final(self).window() == old(self).window(),
    {
        self.ui_state = UiState::Stream;
        let pending = self.pending_profile.take();
        match pending {
            Some(p) => profile_default_commands(&p),
            None => Vec::new(),
        }
    }

    /// The connection failed or its task went away: back to the launcher,
    /// forgetting the pending profile.
    pub fn connect_failed(&mut self)
        ensures
            final(self).ui() == UiState::Launcher,
            final(self).pending() is None,
            final(self).tap() == old(self).tap(),
            final(self).window() == old(self).window(),
    {
        self.ui_state = UiState::Launcher;
        self.pending_profile = None;
    }

    /// The user disconnected: back to the launcher, forgetting the pending
    /// profile.
    pub fn disconnect(&mut self)
        ensures
            final(self).ui() == UiState::Launcher,
            final(self).pending() is None,
            final(self).tap() == old(self).tap(),
            final(self).window() == old(self).window(),
    {
        self.ui_state = UiState::Launcher;
        self.pending_profile = None;
    }

    /// The overlay's close button: back to the plain stream.
    pub fn close_overlay(&mut self)
        ensures
            final(self).ui() == UiState::Stream,
            final(self).pending() == old(self).pending(),
            final(self).tap() == old(self).tap(),
            final(self).window() == old(self).window(),
    {
        self.ui_state = UiState::Stream;
    }

    /// A Control key event at `now_ms`. A press that completes a double tap
    /// toggles the overlay and resets the detector; true exactly then.
    pub fn control_key(&mut self, pressed: bool, now_ms: u64) -> (toggled_now: bool)
        ensures
            pressed ==> (final(self).ui(), final(self).tap()) == control_press_step(
                old(self).ui(),
                old(self).tap(),
                old(self).window(),
                now_ms,
            ),
            pressed ==> toggled_now == key_down_step(old(self).tap(), old(self).window(), now_ms).1,
            !pressed ==> final(self).ui() == old(self).ui() && final(self).tap() == old(self).tap()
                && !toggled_now,
            final(self).pending() == old(self).pending(),
            final(self).window() == old(self).window(),
    {
        if pressed {
            if self.double_tap.key_down(now_ms) {
                self.ui_state = match self.ui_state {
                    UiState::Stream => UiState::Overlay,
                    UiState::Overlay => UiState::Stream,
                    other => other,
                };
                self.double_tap.consume();
                true
            } else {
                false
            }
        } else {
            self.double_tap.key_up(now_ms);
            false
        }
    }

    /// Any other key event: a press cancels double-tap detection.
    pub fn other_key(&mut self, pressed: bool)
        ensures
            final(self).tap() == if pressed { TapState::Idle } else { old(self).tap() },
            final(self).ui() == old(self).ui(),
            final(self).pending() == old(self).pending(),
            final(self).window() == old(self).window(),
    {
        if pressed {
            self.double_tap.other_key_pressed();
        }
    }
}

/// Exactly one of the stream and the launcher is on screen, and input goes
/// to the host only while the plain stream is shown.
pub proof fn lemma_surfaces_exclusive(s: UiState)
    ensures
        s.spec_shows_stream() != s.spec_shows_launcher(),
        s.spec_forwards_input() ==> s.spec_shows_stream() && !s.spec_shows_overlay(),
        s.spec_shows_overlay() ==> s.spec_shows_stream(),
{
}

/// Toggling the overlay twice restores the surface, and a toggle never
/// leaves or enters the session.
pub proof fn lemma_toggle_involution(s: UiState)
    ensures
        toggled(toggled(s)) == s,
        toggled(s).spec_shows_stream() == s.spec_shows_stream(),
        toggled(s).spec_shows_launcher() == s.spec_shows_launcher(),
{
}

/// From the stream with an idle detector, two Control presses within the
/// window open the overlay and leave the detector idle; two more close it.
pub proof fn lemma_double_tap_toggles_overlay(window: u64, t0: u64, t1: u64, t2: u64, t3: u64)
    requires
        t0 <= t1,
        t1 - t0 <= window,
        t2 <= t3,
        t3 - t2 <= window,
    ensures
        control_press_step(
            control_press_step(UiState::Stream, TapState::Idle, window, t0).0,
            control_press_step(UiState::Stream, TapState::Idle, window, t0).1,
            window,
            t1,
        ) == (UiState::Overlay, TapState::Idle),
        control_press_step(
            control_press_step(UiState::Overlay, TapState::Idle, window, t2).0,
            control_press_step(UiState::Overlay, TapState::Idle, window, t2).1,
            window,
            t3,
        ) == (UiState::Stream, TapState::Idle),
{
}

/// Control presses never move the launcher or the connecting screen.
pub proof fn lemma_presses_outside_session(ui: UiState, tap: TapState, window: u64, now: u64)
    requires
        ui.spec_shows_launcher(),
    ensures
        control_press_step(ui, tap, window, now).0 == ui,
{
}

} // verus!
