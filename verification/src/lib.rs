//! Client-side logic of the PRISM remote-desktop viewer: UI state machine,
//! input helpers, saved-server and profile stores, and wire-format helpers.

pub mod actions;
pub mod cards;
pub mod cli;
pub mod client;
pub mod config;
pub mod display;
pub mod double_tap;
pub mod dropdown;
pub mod frame_stats;
pub mod frame_stream;
pub mod launcher;
pub mod overlay;
pub mod panels;
pub mod platform;
pub mod profile_editor;
pub mod profiles;
pub mod server_form;
pub mod servers;
pub mod shell;
pub mod session;
pub mod settings;
pub mod stream_view;
pub mod switches;
pub mod text;
pub mod text_input;
pub mod ui_state;
pub mod widgets;
