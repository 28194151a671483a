//! Client configuration: launch mode, command-line parsing, and user
//! preferences.

use vstd::prelude::*;
use vstd::utf8::encode_utf8;
use hex::FromHexError;
use crate::text::{decimal, push_decimal};

verus! {

/// How the client was started.
#[derive(Debug, Clone, Copy, PartialEq, Eq, Structural)]
pub enum LaunchMode {
    /// No address argument: show the launcher.
    Launcher,
    /// An address was given: connect immediately.
    DirectConnect,
}

#[verifier::external_type_specification]
#[verifier::external_body]
pub struct ExFromHexError(FromHexError);

/// The text of `name` joined under directory `base`, paths being held as
/// text with `/` separators: `name` itself under an empty base, otherwise
/// `base`, one separator (none added when `base` already ends in one), and
/// `name`.
pub open spec fn joined(base: Seq<char>, name: Seq<char>) -> Seq<char> {
    if base.len() == 0 {
        name
    } else if base.last() == '/' {
        base + name
    } else {
        base + "/"@ + name
    }
}

/// Join a relative `name` under directory `base` (see `joined`).
pub fn join_path(base: &str, name: &str) -> (r: String)
    ensures
        r@ == joined(base@, name@),
{
    proof {
        reveal_strlit("/");
    }
    let n = base.unicode_len();
    if n == 0 {
        String::from_str(name)
    } else if base.get_char(n - 1) == '/' {
        let mut s = String::from_str(base);
        s.append(name);
        s
    } else {
        let mut s = String::from_str(base);
        s.append("/");
        s.append(name);
        s
    }
}

/// What `Path::new(a) == Path::new(b)` answers: whether the two texts name
/// the same path component by component.
pub uninterp spec fn paths_equal(a: Seq<char>, b: Seq<char>) -> bool;

/// `<Path as PartialEq>::eq` on two path texts: component-wise equality of
/// the paths they name. Equal texts name equal paths; of other pairs only
/// the name `paths_equal` is stated.
#[verifier::external_body]
pub(crate) fn same_path(a: &str, b: &str) -> (r: bool)
    ensures
        r == paths_equal(a@, b@),
        a@ == b@ ==> r,
{
    std::path::Path::new(a) == std::path::Path::new(b)
}

/// `dirs::home_dir`, as text (`Path::to_string_lossy`): the current user's
/// home directory, if the platform reports one. It depends on the
/// environment; nothing is promised of it.
#[verifier::external_body]
pub(crate) fn user_home_dir() -> Option<String> {
    dirs::home_dir().map(|p| p.to_string_lossy().into_owned())
}

/// Value of an ASCII hexadecimal digit.
pub open spec fn hex_digit_value(c: u8) -> int {
    if 48 <= c <= 57 {
        c - 48
    } else if 65 <= c <= 70 {
        c - 55
    } else {
        c - 87
    }
}

pub open spec fn is_hex_digit(c: u8) -> bool {
    (48 <= c <= 57) || (65 <= c <= 70) || (97 <= c <= 102)
}

/// Whether `hex::decode` accepts the bytes: an even number of hex digits.
pub open spec fn hex_ok(b: Seq<u8>) -> bool {
    b.len() % 2 == 0 && forall|i: int| 0 <= i < b.len() ==> is_hex_digit(#[trigger] b[i])
}

/// The bytes that pairs of hex digits denote (high nibble first).
pub open spec fn hex_decoded(b: Seq<u8>) -> Seq<u8> {
    Seq::new(b.len() / 2, |i: int| (hex_digit_value(b[2 * i]) * 16 + hex_digit_value(b[2 * i + 1])) as u8)
}

/// `hex::decode`: succeeds exactly when the input is an even number of hex
/// digits (either case), with one byte per digit pair, high nibble first;
/// otherwise an error describing the odd length or the first bad character.
#[verifier::external_body]
pub(crate) fn decode_hex(bytes: &[u8]) -> (r: Result<Vec<u8>, FromHexError>)
    ensures
        r is Ok <==> hex_ok(bytes@),
        r matches Ok(v) ==> v@ == hex_decoded(bytes@),
{
    hex::decode(bytes)
}

/// Why the command line was rejected.
#[derive(Debug, Clone, PartialEq, Eq)]
pub enum ArgError {
    /// `--noise` was the last argument.
    MissingNoiseValue,
    /// The `--noise` value does not have 64 bytes; its byte length.
    BadNoiseLength(usize),
    /// The `--noise` value is 64 bytes but not hexadecimal.
    BadNoiseHex,
    /// `--config` was the last argument.
    MissingConfigValue,
    /// The first positional argument is not a socket address.
    InvalidAddress(String),
}

/// What a successful scan of the arguments collected: the decoded noise key
/// (the last one given), the `--config` directory (the last one given) and
/// the first positional argument.
pub type ArgScan = (Option<Seq<u8>>, Option<Seq<char>>, Option<Seq<char>>);

pub open spec fn is_flag(a: Seq<char>) -> bool {
    a.len() > 0 && a[0] == '-'
}

/// The left-to-right scan of the arguments from position `i`: `--noise KEY`
/// (64 hex bytes) and `--config DIR` take a value, other arguments starting
/// with `-` are skipped, and the first other argument must be a socket
/// address (later ones are ignored); `is_addr[i]` says whether argument `i`
/// parses as a socket address.
pub open spec fn scan_args(args: Seq<String>, is_addr: Seq<bool>, i: nat, acc: ArgScan) -> Result<ArgScan, ArgError>
    decreases args.len() - i,
{
    if i >= args.len() {
        Ok(acc)
    } else {
        let a = args[i as int]@;
        if a == "--noise"@ {
            if i + 1 >= args.len() {
                Err(ArgError::MissingNoiseValue)
            } else {
                let v = encode_utf8(args[i + 1int]@);
                if v.len() != 64 {
                    Err(ArgError::BadNoiseLength(v.len() as usize))
                } else if !hex_ok(v) {
                    Err(ArgError::BadNoiseHex)
                } else {
                    scan_args(args, is_addr, i + 2, (Some(hex_decoded(v)), acc.1, acc.2))
                }
            }
        } else if a == "--config"@ {
            if i + 1 >= args.len() {
                Err(ArgError::MissingConfigValue)
            } else {
                scan_args(args, is_addr, i + 2, (acc.0, Some(args[i + 1int]@), acc.2))
            }
        } else if is_flag(a) {
            scan_args(args, is_addr, i + 1, acc)
        } else if acc.2 is None {
            if is_addr[i as int] {
                scan_args(args, is_addr, i + 1, (acc.0, acc.1, Some(a)))
            } else {
                Err(ArgError::InvalidAddress(args[i as int]))
            }
        } else {
            scan_args(args, is_addr, i + 1, acc)
        }
    }
}

/// Prefix of the message for a `--noise` value that is not hexadecimal; the
/// decoder's own description follows it.
pub open spec fn hex_error_prefix() -> Seq<char> {
    "--noise hex decode error: "@
}

/// The message `from_args` reports for an error (for `BadNoiseHex`, only
/// its prefix).
pub open spec fn arg_error_message(e: ArgError) -> Seq<char> {
    match e {
        ArgError::MissingNoiseValue => "--noise requires a value"@,
        ArgError::BadNoiseLength(n) => "--noise value must be 64 hex chars, got "@ + decimal(n as nat),
        ArgError::BadNoiseHex => hex_error_prefix(),
        ArgError::MissingConfigValue => "--config requires a value"@,
        ArgError::InvalidAddress(a) => "invalid address: '"@ + a@ + "'"@,
    }
}

/// Configuration derived from the command line.
pub struct ClientConfig {
    pub launch_mode: LaunchMode,
    /// The server address as given (it parses as a socket address).
    pub server_addr: Option<String>,
    pub noise_key: Option<[u8; 32]>,
    /// Where the client identity is kept.
    pub identity_path: String,
    /// The directory of the saved servers, profiles and preferences.
    pub servers_dir: String,
    /// The directory of the shader cache.
    pub shader_cache_dir: String,
}

/// The directory the files live in by default: `.prism` under the home
/// directory, or under `.` when no home directory is known.
pub open spec fn default_prism_dir(home: Option<Seq<char>>) -> Seq<char> {
    joined(
        match home {
            Some(h) => h,
            None => "."@,
        },
        ".prism"@,
    )
}

/// The directory of the saved servers: the `--config` value, else the default.
pub open spec fn chosen_servers_dir(config: Option<Seq<char>>, home: Option<Seq<char>>) -> Seq<char> {
    match config {
        Some(d) => d,
        None => default_prism_dir(home),
    }
}

/// The directory of the identity and the shader cache: the `--config`
/// value when one is given and names another path than the default, else
/// the default.
pub open spec fn files_dir(config: Option<Seq<char>>, home: Option<Seq<char>>) -> Seq<char> {
    match config {
        Some(d) => if paths_equal(d, default_prism_dir(home)) {
            default_prism_dir(home)
        } else {
            d
        },
        None => default_prism_dir(home),
    }
}

fn starts_with_dash(s: &String) -> (b: bool)
    ensures
        b == is_flag(s@),
{
    let t = s.as_str();
    t.unicode_len() > 0 && t.get_char(0) == '-'
}

pub(crate) fn key_from_bytes(v: &Vec<u8>) -> (k: [u8; 32])
    requires
        v@.len() == 32,
    ensures
        k@ == v@,
{
    let mut k = [0u8; 32];
    let mut i: usize = 0;
    while i < 32
        invariant
            i <= 32,
            v@.len() == 32,
            k@.len() == 32,
            forall|j: int| 0 <= j < i ==> k@[j] == v@[j],
        decreases 32 - i,
    {
        k[i] = v[i];
        i = i + 1;
    }
    assert(k@ =~= v@);
    k
}

impl ArgError {
    /// The error's message (for `BadNoiseHex`, without the decoder's detail).
    pub fn message(&self) -> (m: String)
        ensures
            m@ == arg_error_message(*self),
    {
        match self {
            ArgError::MissingNoiseValue => String::from_str("--noise requires a value"),
            ArgError::BadNoiseLength(n) => {
                let mut m = String::from_str("--noise value must be 64 hex chars, got ");
                push_decimal(&mut m, *n as u64);
                m
            },
            ArgError::BadNoiseHex => String::from_str("--noise hex decode error: "),
            ArgError::MissingConfigValue => String::from_str("--config requires a value"),
            ArgError::InvalidAddress(a) => {
                let mut m = String::from_str("invalid address: '");
                m.append(a.as_str());
                m.append("'");
                m
            },
        }
    }
}


pub open spec fn opt_key_view(k: Option<[u8; 32]>) -> Option<Seq<u8>> {
    match k {
        Some(a) => Some(a@),
        None => None,
    }
}

pub open spec fn opt_string_view(s: Option<String>) -> Option<Seq<char>> {
    match s {
        Some(v) => Some(v@),
        None => None,
    }
}

/// Whether `m` is the message for `e` (for a bad hex value: the message
/// starts with the prefix, the decoder's description follows).
pub open spec fn reports(m: Seq<char>, e: ArgError) -> bool {
    match e {
        ArgError::BadNoiseHex => m.len() >= hex_error_prefix().len() && m.subrange(
            0,
            hex_error_prefix().len() as int,
        ) == hex_error_prefix(),
        _ => m == arg_error_message(e),
    }
}

impl ClientConfig {
    /// Parse the command line. `is_addr[i]` says whether `args[i]` parses as
    /// a socket address; `home_dir` is the user's home directory, if known.
    /// Files live in `<home>/.prism` (or `./.prism`), or in the `--config`
    /// directory when one is given and differs from it.
    pub fn from_args(args: &[String], is_addr: &[bool], home_dir: Option<String>) -> (r: Result<ClientConfig, String>)
        requires
            is_addr@.len() == args@.len(),
        ensures
            ({
                let s = scan_args(args@, is_addr@, 0, (None, None, None));
                &&& (r is Ok <==> s is Ok)
                &&& r matches Ok(c) ==> {
                    &&& opt_key_view(c.noise_key) == s->Ok_0.0
                    &&& opt_string_view(c.server_addr) == s->Ok_0.2
                    &&& c.launch_mode == if s->Ok_0.2 is Some {
                        LaunchMode::DirectConnect
                    } else {
                        LaunchMode::Launcher
                    }
                    &&& c.servers_dir@ == chosen_servers_dir(s->Ok_0.1, opt_string_view(home_dir))
                    &&& c.identity_path@ == joined(
                        files_dir(s->Ok_0.1, opt_string_view(home_dir)),
                        "client_identity.json"@,
                    )
                    &&& c.shader_cache_dir@ == joined(
                        files_dir(s->Ok_0.1, opt_string_view(home_dir)),
                        "shader_cache"@,
                    )
                }
                &&& r matches Err(m) ==> reports(m@, s->Err_0)
            }),
    {
        let ghost home = opt_string_view(home_dir);
        let prism_dir = match &home_dir {
            Some(h) => join_path(h.as_str(), ".prism"),
            None => join_path(".", ".prism"),
        };
        proof {
            reveal_strlit(".");
            reveal_strlit(".prism");
            reveal_strlit("client_identity.json");
            reveal_strlit("shader_cache");
        }
        let mut identity_path = join_path(prism_dir.as_str(), "client_identity.json");
        let mut servers_dir = prism_dir.clone();
        let mut shader_cache_dir = join_path(prism_dir.as_str(), "shader_cache");
        let mut server_addr: Option<String> = None;
        let mut noise_key: Option<[u8; 32]> = None;
        let noise_flag = String::from_str("--noise");
        let config_flag = String::from_str("--config");
        proof {
            reveal_strlit("--noise");
            reveal_strlit("--config");
        }
        let ghost start = scan_args(args@, is_addr@, 0, (None, None, None));
        let ghost mut cfg: Option<Seq<char>> = None;
        let mut i: usize = 0;
        while i < args.len()
            invariant
                i <= args@.len(),
                is_addr@.len() == args@.len(),
                noise_flag@ == "--noise"@,
                config_flag@ == "--config"@,
                start == scan_args(args@, is_addr@, 0, (None, None, None)),
                start == scan_args(
                    args@,
                    is_addr@,
                    i as nat,
                    (opt_key_view(noise_key), cfg, opt_string_view(server_addr)),
                ),
                home == opt_string_view(home_dir),
                prism_dir@ == default_prism_dir(home),
                servers_dir@ == chosen_servers_dir(cfg, home),
                identity_path@ == joined(default_prism_dir(home), "client_identity.json"@),
                shader_cache_dir@ == joined(default_prism_dir(home), "shader_cache"@),
            decreases args@.len() - i,
        {
            let arg = &args[i];
            if *arg == noise_flag {
                if i + 1 >= args.len() {
                    let e = ArgError::MissingNoiseValue;
                    return Err(e.message());
                }
                let value = args[i + 1].as_str();
                let bytes = value.as_bytes();
                if bytes.len() != 64 {
                    let e = ArgError::BadNoiseLength(bytes.len());
                    return Err(e.message());
                }
                match decode_hex(bytes) {
                    Ok(decoded) => {
                        proof {
                            assert(hex_decoded(bytes@).len() == 32);
                        }
                        noise_key = Some(key_from_bytes(&decoded));
                    },
                    Err(err) => {
                        let mut m = ArgError::BadNoiseHex.message();
                        let detail = err.to_string();
                        let ghost before = m@;
                        m.append(detail.as_str());
                        proof {
                            assert(m@.subrange(0, hex_error_prefix().len() as int) =~= before);
                        }
                        return Err(m);
                    },
                }
                i = i + 2;
            } else if *arg == config_flag {
                if i + 1 >= args.len() {
                    let e = ArgError::MissingConfigValue;
                    return Err(e.message());
                }
                servers_dir = args[i + 1].clone();
                proof {
                    cfg = Some(args@[i + 1int]@);
                }
                i = i + 2;
            } else if starts_with_dash(arg) {
                i = i + 1;
            } else {
                if server_addr.is_none() {
                    if is_addr[i] {
                        server_addr = Some(arg.clone());
                    } else {
                        let e = ArgError::InvalidAddress(arg.clone());
                        return Err(e.message());
                    }
                }
                i = i + 1;
            }
        }
        if !same_path(servers_dir.as_str(), prism_dir.as_str()) {
            identity_path = join_path(servers_dir.as_str(), "client_identity.json");
            shader_cache_dir = join_path(servers_dir.as_str(), "shader_cache");
        }
        let launch_mode = if server_addr.is_some() {
            LaunchMode::DirectConnect
        } else {
            LaunchMode::Launcher
        };
        Ok(ClientConfig {
            launch_mode,
            server_addr,
            noise_key,
            identity_path,
            servers_dir,
            shader_cache_dir,
        })
    }
}

impl ClientConfig {
    /// Parse the command line with the user's home directory as the base
    /// of the default paths; see `from_args`.
    pub fn from_command_line(args: &[String], is_addr: &[bool]) -> (r: Result<ClientConfig, String>)
        requires
            is_addr@.len() == args@.len(),
        ensures
            ({
                let s = scan_args(args@, is_addr@, 0, (None, None, None));
                &&& (r is Ok <==> s is Ok)
                &&& r matches Ok(c) ==> {
                    &&& opt_key_view(c.noise_key) == s->Ok_0.0
                    &&& opt_string_view(c.server_addr) == s->Ok_0.2
                    &&& c.launch_mode == if s->Ok_0.2 is Some {
                        LaunchMode::DirectConnect
                    } else {
                        LaunchMode::Launcher
                    }
                    &&& exists|home: Option<Seq<char>>| {
                        &&& c.servers_dir@ == #[trigger] chosen_servers_dir(s->Ok_0.1, home)
                        &&& c.identity_path@ == joined(files_dir(s->Ok_0.1, home), "client_identity.json"@)
                        &&& c.shader_cache_dir@ == joined(files_dir(s->Ok_0.1, home), "shader_cache"@)
                    }
                }
                &&& r matches Err(m) ==> reports(m@, s->Err_0)
            }),
    {
        let home = user_home_dir();
        let ghost hv = opt_string_view(home);
        let r = Self::from_args(args, is_addr, home);
        proof {
            let s = scan_args(args@, is_addr@, 0, (None, None, None));
            if r is Ok {
                assert(chosen_servers_dir(s->Ok_0.1, hv) == chosen_servers_dir(s->Ok_0.1, hv));
            }
        }
        r
    }
}


/// User preferences persisted as JSON next to the saved servers.
#[derive(Debug, Clone)]
pub struct UserPrefs {
    pub default_profile: String,
    pub exclusive_keyboard: bool,
    pub relative_mouse: bool,
}

impl Default for UserPrefs {
    /// Profile "Balanced", exclusive keyboard on, relative mouse off.
    fn default() -> (p: UserPrefs)
        ensures
            p.default_profile@ == "Balanced"@,
            p.exclusive_keyboard,
            !p.relative_mouse,
    {
        UserPrefs {
            default_profile: String::from_str("Balanced"),
            exclusive_keyboard: true,
            relative_mouse: false,
        }
    }
}

} // verus!
