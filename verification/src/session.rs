//! What travels between the UI and a live session: control commands, server
//! and monitor descriptions, connection results, decoded frames; and the
//! choices made when a connection starts (address normalisation, the profile
//! to apply, and the commands that apply it).

use vstd::prelude::*;
use vstd::string::StrSliceExecFns;
use std::time::Duration;
use crate::profiles::{find_profile_named, EncoderPreset, ProfileConfig, ProfileStore};
use crate::servers::{SavedServer, ServerStore};
use crate::frame_stream::{encode_header, header_bytes, WireHeader};

verus! {

/// Commands from the UI to the network side.
#[derive(Debug, Clone)]
pub enum ControlCommand {
    SwitchProfile(String),
    UpdateQuality {
        encoder_preset: Option<String>,
        max_fps: Option<u8>,
        lossless_text: Option<bool>,
        region_detection: Option<bool>,
    },
    SetBandwidthLimit(u64),
    SelectMonitor(u8),
    Disconnect,
    RequestServerInfo,
}

/// One display of the host.
#[derive(Debug, Clone, Copy)]
pub struct MonitorInfo {
    pub index: u8,
    pub width: u32,
    pub height: u32,
    pub x: i32,
    pub y: i32,
    pub is_primary: bool,
}

impl Default for MonitorInfo {
    fn default() -> (m: MonitorInfo)
        ensures
            m.index == 0 && m.width == 0 && m.height == 0,
            m.x == 0 && m.y == 0 && !m.is_primary,
    {
        MonitorInfo { index: 0, width: 0, height: 0, x: 0, y: 0, is_primary: false }
    }
}

/// What the host reports about itself once connected.
#[derive(Debug)]
pub struct ServerInfo {
    pub display_name: String,
    pub resolution: (u32, u32),
    pub refresh_rate: u8,
    pub codec: String,
    pub encryption: bool,
    pub monitors: Vec<MonitorInfo>,
}

impl Clone for ServerInfo {
    fn clone(&self) -> (r: ServerInfo)
        ensures
            r.display_name == self.display_name,
            r.resolution == self.resolution,
            r.refresh_rate == self.refresh_rate,
            r.codec == self.codec,
            r.encryption == self.encryption,
            r.monitors@ == self.monitors@,
    {
        let monitors = self.monitors.clone();
        assert(monitors@ =~= self.monitors@);
        ServerInfo {
            display_name: self.display_name.clone(),
            resolution: self.resolution,
            refresh_rate: self.refresh_rate,
            codec: self.codec.clone(),
            encryption: self.encryption,
            monitors,
        }
    }
}

impl Default for ServerInfo {
    fn default() -> (s: ServerInfo)
        ensures
            s.display_name@ == Seq::<char>::empty(),
            s.resolution == (0u32, 0u32),
            s.refresh_rate == 0,
            s.codec@ == Seq::<char>::empty(),
            !s.encryption,
            s.monitors@ == Seq::<MonitorInfo>::empty(),
    {
        ServerInfo {
            display_name: String::new(),
            resolution: (0, 0),
            refresh_rate: 0,
            codec: String::new(),
            encryption: false,
            monitors: Vec::new(),
        }
    }
}

/// Outcome of a connection attempt.
#[derive(Debug)]
pub enum ConnectResult {
    Connected { server_info: ServerInfo },
    Failed { error: String, retryable: bool },
}

/// Encryption in use, for display.
#[derive(Debug, Clone, Copy, PartialEq, Eq, Structural)]
pub enum EncryptionStatus {
    /// No encryption beyond the transport's.
    Unencrypted,
    NoiseIK,
}

impl Default for EncryptionStatus {
    fn default() -> (e: EncryptionStatus)
        ensures
            e == EncryptionStatus::Unencrypted,
    {
        EncryptionStatus::Unencrypted
    }
}

/// Reachability of a saved host, as last probed.
#[derive(Debug, Clone, Copy)]
pub enum ServerStatus {
    Unknown,
    /// Reachable, with the measured round-trip time.
    Online(Duration),
    Offline,
}

impl Default for ServerStatus {
    fn default() -> (s: ServerStatus)
        ensures
            s is Unknown,
    {
        ServerStatus::Unknown
    }
}

/// A decoded frame with tightly packed planes.
pub struct Frame {
    pub width: usize,
    pub height: usize,
    pub y_data: Vec<u8>,
    pub u_data: Vec<u8>,
    pub v_data: Vec<u8>,
    pub seq: u32,
}

/// The port assumed when an address names none.
pub open spec fn default_port_suffix() -> Seq<char> {
    ":7000"@
}

/// An address as dialled: unchanged when it holds a ':', otherwise with
/// ":7000" appended.
pub open spec fn normalized_address(address: Seq<char>) -> Seq<char> {
    if address.contains(':') {
        address
    } else {
        address + default_port_suffix()
    }
}

/// Whether `address` holds a ':'.
fn has_colon(address: &str) -> (b: bool)
    ensures
        b == address@.contains(':'),
{
    let n = address.unicode_len();
    let mut i: usize = 0;
    while i < n
        invariant
            n == address@.len(),
            i <= n,
            forall|j: int| 0 <= j < i ==> address@[j] != ':',
        decreases n - i,
    {
        if address.get_char(i) == ':' {
            return true;
        }
        i = i + 1;
    }
    false
}

/// The address to dial: `address` itself when it names a port, else the
/// address on port 7000.
pub fn normalize_address(address: &str) -> (r: String)
    ensures
        r@ == normalized_address(address@),
{
    let mut r = String::from_str(address);
    if !has_colon(address) {
        r.append(":7000");
    }
    r
}

/// Index of the first server at or after `i` whose address is `raw` or
/// `normalized`, or -1.
pub open spec fn find_server_by_address_from(
    s: Seq<SavedServer>,
    raw: Seq<char>,
    normalized: Seq<char>,
    i: nat,
) -> int
    decreases s.len() - i,
{
    if i >= s.len() {
        -1
    } else if s[i as int].address@ == raw || s[i as int].address@ == normalized {
        i as int
    } else {
        find_server_by_address_from(s, raw, normalized, i + 1)
    }
}

/// The name of the profile to apply for a connection: the default profile of
/// the first saved server at that address, else "Balanced".
pub open spec fn preferred_profile_name(
    servers: Option<Seq<SavedServer>>,
    raw: Seq<char>,
    normalized: Seq<char>,
) -> Seq<char> {
    match servers {
        Some(s) => {
            let k = find_server_by_address_from(s, raw, normalized, 0);
            if k >= 0 {
                s[k].default_profile@
            } else {
                "Balanced"@
            }
        },
        None => "Balanced"@,
    }
}

/// The profile found for `name`: the first profile so named, else the first
/// named "Balanced", else the first profile, else none.
pub open spec fn resolved_profile(profiles: Seq<ProfileConfig>, name: Seq<char>) -> Option<ProfileConfig> {
    let i = find_profile_named(profiles, name);
    let j = find_profile_named(profiles, "Balanced"@);
    if i >= 0 {
        Some(profiles[i])
    } else if j >= 0 {
        Some(profiles[j])
    } else if profiles.len() > 0 {
        Some(profiles[0])
    } else {
        None
    }
}

fn preferred_profile(servers: Option<&ServerStore>, raw: &str, normalized: &str) -> (r: String)
    ensures
        r@ == preferred_profile_name(
            match servers {
                Some(st) => Some(st@),
                None => None,
            },
            raw@,
            normalized@,
        ),
{
    proof {
        reveal_strlit("Balanced");
    }
    match servers {
        None => String::from_str("Balanced"),
        Some(store) => {
            let list = store.servers();
            let raw_s = String::from_str(raw);
            let norm_s = String::from_str(normalized);
            let mut i: usize = 0;
            while i < list.len()
                invariant
                    servers == Some(store),
                    list@ == store@,
                    i <= list@.len(),
                    raw_s@ == raw@,
                    norm_s@ == normalized@,
                    find_server_by_address_from(store@, raw@, normalized@, 0)
                        == find_server_by_address_from(store@, raw@, normalized@, i as nat),
                decreases list@.len() - i,
            {
                if list[i].address == raw_s || list[i].address == norm_s {
                    assert(find_server_by_address_from(store@, raw@, normalized@, i as nat) == i);
                    return list[i].default_profile.clone();
                }
                i = i + 1;
            }
            String::from_str("Balanced")
        },
    }
}

/// The profile to apply when connecting to `raw_address` (dialled as
/// `normalized_address`): the saved server's default profile if one matches,
/// else "Balanced", falling back to "Balanced" and then to the first profile.
/// Without a profile store there is none.
pub fn resolve_profile_for_connection(
    servers: Option<&ServerStore>,
    profiles: Option<&ProfileStore>,
    raw_address: &str,
    normalized_address: &str,
) -> (r: Option<ProfileConfig>)
    ensures
        r == match profiles {
            Some(ps) => resolved_profile(
                ps@,
                preferred_profile_name(
                    match servers {
                        Some(st) => Some(st@),
                        None => None,
                    },
                    raw_address@,
                    normalized_address@,
                ),
            ),
            None => None,
        },
{
    let name = preferred_profile(servers, raw_address, normalized_address);
    let store = match profiles {
        Some(ps) => ps,
        None => return None,
    };
    proof {
        reveal_strlit("Balanced");
    }
    match store.get_by_name(name.as_str()) {
        Some(p) => Some(p.duplicate()),
        None => match store.get_by_name("Balanced") {
            Some(p) => Some(p.duplicate()),
            None => {
                let list = store.list();
                if list.len() > 0 {
                    Some(list[0].duplicate())
                } else {
                    None
                }
            },
        },
    }
}

pub open spec fn spec_encoder_preset_label(preset: EncoderPreset) -> Seq<char> {
    match preset {
        EncoderPreset::UltraLowLatency => "UltraLowLatency"@,
        EncoderPreset::Balanced => "Balanced"@,
        EncoderPreset::Quality => "Quality"@,
    }
}

/// The name of an encoder preset on the wire.
pub fn encoder_preset_label(preset: EncoderPreset) -> (s: String)
    ensures
        s@ == spec_encoder_preset_label(preset),
{
    match preset {
        EncoderPreset::UltraLowLatency => String::from_str("UltraLowLatency"),
        EncoderPreset::Balanced => String::from_str("Balanced"),
        EncoderPreset::Quality => String::from_str("Quality"),
    }
}

/// Whether `cmds` are the commands that apply `profile` to a new session:
/// switch to it by name, request its encoder preset and frame rate, and cap
/// the bandwidth at its bitrate.
pub open spec fn applies_profile(cmds: Seq<ControlCommand>, profile: ProfileConfig) -> bool {
    &&& cmds.len() == 3
    &&& cmds[0] matches ControlCommand::SwitchProfile(name) && name@ == profile.name@
    &&& cmds[1] matches ControlCommand::UpdateQuality { encoder_preset, max_fps, lossless_text, region_detection }
        && encoder_preset matches Some(p) && p@ == spec_encoder_preset_label(profile.encoder_preset)
        && max_fps == Some(profile.max_fps)
        && lossless_text is None
        && region_detection is None
    &&& cmds[2] == ControlCommand::SetBandwidthLimit(profile.bitrate_bps)
}

/// The commands sent once a session is up, to apply the chosen profile.
pub fn profile_default_commands(profile: &ProfileConfig) -> (cmds: Vec<ControlCommand>)
    ensures
        applies_profile(cmds@, *profile),
{
    let mut cmds: Vec<ControlCommand> = Vec::new();
    cmds.push(ControlCommand::SwitchProfile(profile.name.clone()));
    cmds.push(
        ControlCommand::UpdateQuality {
            encoder_preset: Some(encoder_preset_label(profile.encoder_preset)),
            max_fps: Some(profile.max_fps),
            lossless_text: None,
            region_detection: None,
        },
    );
    cmds.push(ControlCommand::SetBandwidthLimit(profile.bitrate_bps));
    cmds
}

/// What the network side sends for one control command: the fields of a
/// profile switch, of a quality update, the monitor to show, a session-info
/// request, or the end of the control stream.
#[derive(Debug, Clone)]
pub enum ControlMessage {
    ProfileSwitch {
        profile_name: String,
        max_fps: u8,
        encoder_preset: String,
        prefer_lossless_text: bool,
        region_detection: bool,
    },
    QualityUpdate {
        encoder_preset: Option<String>,
        max_fps: Option<u8>,
        bitrate_bps: Option<u64>,
        lossless_text: Option<bool>,
        region_detection: Option<bool>,
    },
    MonitorLayout { monitor_index: u8 },
    SessionInfo,
    Stop,
}

/// Whether `m` is the message for `cmd`: a profile switch names the
/// profile with the defaults of 60 fps, the Balanced preset and both text
/// options off; a quality update keeps its fields and carries no bitrate; a
/// bandwidth limit is a quality update carrying only the bitrate; a monitor
/// choice asks for that monitor's layout; an info request asks for session
/// info; a disconnect ends the control stream.
pub open spec fn is_message_for(cmd: ControlCommand, m: ControlMessage) -> bool {
    match cmd {
        ControlCommand::SwitchProfile(name) => m matches ControlMessage::ProfileSwitch {
            profile_name,
            max_fps,
            encoder_preset,
            prefer_lossless_text,
            region_detection,
        } && profile_name == name && max_fps == 60 && encoder_preset@ == "Balanced"@ && !prefer_lossless_text
            && !region_detection,
        ControlCommand::UpdateQuality { encoder_preset, max_fps, lossless_text, region_detection } => m
            == (ControlMessage::QualityUpdate {
            encoder_preset,
            max_fps,
            bitrate_bps: None,
            lossless_text,
            region_detection,
        }),
        ControlCommand::SetBandwidthLimit(bps) => m == (ControlMessage::QualityUpdate {
            encoder_preset: None,
            max_fps: None,
            bitrate_bps: Some(bps),
            lossless_text: None,
            region_detection: None,
        }),
        ControlCommand::SelectMonitor(index) => m == (ControlMessage::MonitorLayout { monitor_index: index }),
        ControlCommand::Disconnect => m is Stop,
        ControlCommand::RequestServerInfo => m is SessionInfo,
    }
}

/// The message to send for a control command.
pub fn control_message_for(cmd: ControlCommand) -> (m: ControlMessage)
    ensures
        is_message_for(cmd, m),
{
    proof {
        reveal_strlit("Balanced");
    }
    match cmd {
        ControlCommand::SwitchProfile(name) => ControlMessage::ProfileSwitch {
            profile_name: name,
            max_fps: 60,
            encoder_preset: String::from_str("Balanced"),
            prefer_lossless_text: false,
            region_detection: false,
        },
        ControlCommand::UpdateQuality { encoder_preset, max_fps, lossless_text, region_detection } =>
            ControlMessage::QualityUpdate {
            encoder_preset,
            max_fps,
            bitrate_bps: None,
            lossless_text,
            region_detection,
        },
        ControlCommand::SetBandwidthLimit(bps) => ControlMessage::QualityUpdate {
            encoder_preset: None,
            max_fps: None,
            bitrate_bps: Some(bps),
            lossless_text: None,
            region_detection: None,
        },
        ControlCommand::SelectMonitor(index) => ControlMessage::MonitorLayout { monitor_index: index },
        ControlCommand::Disconnect => ControlMessage::Stop,
        ControlCommand::RequestServerInfo => ControlMessage::SessionInfo,
    }
}

/// Numbers the control datagrams of a session, starting at 1 and wrapping.
pub struct ControlSequencer {
    sequence: u32,
}

impl ControlSequencer {
    pub closed spec fn next_sequence(&self) -> u32 {
        self.sequence
    }

    pub fn new() -> (s: ControlSequencer)
        ensures
            s.next_sequence() == 1,
    {
        ControlSequencer { sequence: 1 }
    }

    /// The datagram for one control payload: a header with the next
    /// sequence number, zero flags and timestamp and the payload's length,
    /// then the payload.
    pub fn packet(&mut self, version: u8, channel_id: u16, msg_type: u8, payload: &[u8]) -> (d: Vec<u8>)
        requires
            version < 16,
            channel_id < 4096,
            payload@.len() <= u32::MAX,
        ensures
            d@ == header_bytes(
                WireHeader {
                    version,
                    channel_id,
                    msg_type,
                    flags: 0,
                    sequence: old(self).next_sequence(),
                    timestamp_us: 0,
                    payload_length: payload@.len() as u32,
                },
            ) + payload@,
            final(self).next_sequence() == vstd::wrapping::u32_specs::wrapping_add(old(self).next_sequence(), 1),
    {
        let h = WireHeader {
            version,
            channel_id,
            msg_type,
            flags: 0,
            sequence: self.sequence,
            timestamp_us: 0,
            payload_length: payload.len() as u32,
        };
        let mut d = encode_header(&h);
        let ghost head = d@;
        let mut j: usize = 0;
        while j < payload.len()
            invariant
                j <= payload@.len(),
                d@ == head + payload@.subrange(0, j as int),
            decreases payload@.len() - j,
        {
            d.push(payload[j]);
            j = j + 1;
            assert(d@ =~= head + payload@.subrange(0, j as int));
        }
        assert(payload@.subrange(0, j as int) =~= payload@);
        self.sequence = self.sequence.wrapping_add(1);
        d
    }
}

} // verus!
