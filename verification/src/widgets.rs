//! Value types shared by the widgets: colour modes, buttons, keys, routing
//! targets, easing curves, and the actions widgets emit.

use vstd::prelude::*;
use crate::launcher::{LauncherTab, SettingsSection};

verus! {

/// Dark-glass (overlay) or light (launcher) rendering.
#[derive(Debug, Clone, Copy, PartialEq, Eq, Default, Structural)]
pub enum ColorMode {
    #[default]
    Dark,
    Light,
}

/// Visual style of a button.
#[derive(Debug, Clone, Copy, PartialEq, Eq, Structural)]
pub enum ButtonStyle {
    Primary,
    Secondary,
    Destructive,
    /// No background or border: text only.
    Text,
}

/// Mouse buttons the widgets react to.
#[derive(Debug, Clone, Copy, PartialEq, Eq, Structural)]
pub enum MouseButton {
    Left,
    Right,
    Middle,
}

/// Keys the widgets react to.
#[derive(Debug, Clone, Copy, PartialEq, Eq, Structural)]
pub enum KeyCode {
    Enter,
    Escape,
    Tab,
    ShiftTab,
    Backspace,
    Delete,
    Left,
    Right,
    Up,
    Down,
    Home,
    End,
    CtrlA,
    CtrlC,
    CtrlV,
    CtrlX,
    Other(u32),
}

/// Which recipient gets a routed input event.
#[derive(Debug, Clone, Copy, PartialEq, Eq, Structural)]
pub enum InputTarget {
    Remote,
    Overlay,
}

/// Easing curve of an animation.
#[derive(Debug, Clone, Copy, PartialEq, Eq, Structural)]
pub enum EaseCurve {
    Linear,
    EaseOut,
    EaseIn,
    /// Damped spring (omega 8, zeta 0.5) that overshoots before settling.
    Spring,
}

/// Handle of an animation in an animation pool.
#[derive(Debug, Clone, Copy, PartialEq, Eq, Structural)]
pub struct AnimationId(pub usize);

/// Tone of a status chip.
#[derive(Debug, Clone, Copy, PartialEq, Eq, Structural)]
pub enum ChipTone {
    Success,
    Warning,
    Danger,
    Accent,
    Neutral,
}

/// A monitor of the remote host as drawn by the monitor map.
#[derive(Debug, Clone, Copy, PartialEq, Eq, Structural)]
pub struct MonitorInfo {
    pub index: u8,
    pub x: i32,
    pub y: i32,
    pub width: u32,
    pub height: u32,
    pub is_primary: bool,
}

/// What a widget asks the application to do. Server ids are UUIDs held as
/// big-endian `u128`.
#[derive(Debug, Clone)]
pub enum UiAction {
    Connect { address: String, noise_key: Option<String> },
    OpenLauncherTab(LauncherTab),
    Disconnect,
    SwitchServer { address: String },
    SwitchProfile(String),
    UpdateQuality {
        preset: Option<String>,
        max_fps: Option<u8>,
        lossless_text: Option<bool>,
        region_detection: Option<bool>,
    },
    SetBandwidthLimit(u64),
    SelectMonitor(u8),
    OpenPanel(String),
    ClosePanel(String),
    CloseOverlay,
    TogglePinStatsBar,
    EditServer(u128),
    DeleteServer(u128),
    AddServer,
    SaveServer,
    CancelModal,
    ConfirmDeleteServer(u128),
    OpenSettingsSection(SettingsSection),
}

/// How a widget answered an event.
#[derive(Debug, Clone)]
pub enum EventResponse {
    Ignored,
    Consumed,
    Action(UiAction),
}

} // verus!
