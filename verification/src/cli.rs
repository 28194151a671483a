//! The command line of the streaming client binary: the server address
//! (first argument, "127.0.0.1:7000" by default) and an optional Noise
//! public key given in hex after `--noise`.

use vstd::prelude::*;
use vstd::string::StringSliceAdditionalSpecFns;
use crate::config::{decode_hex, hex_decoded, hex_ok, join_path, joined, key_from_bytes, opt_string_view, user_home_dir};

verus! {

/// What the command line names; the address is parsed by the caller.
pub struct LaunchArgs {
    pub server_addr: String,
    pub noise_hex: Option<String>,
}

/// The address argument: the first after the program name, or the local
/// default.
pub open spec fn spec_server_arg(args: Seq<String>) -> Seq<char> {
    if args.len() > 1 {
        args[1]@
    } else {
        "127.0.0.1:7000"@
    }
}

/// Position of the first `--noise` at or after `i` (the program name
/// included), or -1.
pub open spec fn noise_flag_from(args: Seq<String>, i: nat) -> int
    decreases args.len() - i,
{
    if i >= args.len() {
        -1
    } else if args[i as int]@ == "--noise"@ {
        i as int
    } else {
        noise_flag_from(args, i + 1)
    }
}

/// The argument after the first `--noise`, if both exist.
pub open spec fn spec_noise_arg(args: Seq<String>) -> Option<Seq<char>> {
    let p = noise_flag_from(args, 0);
    if p >= 0 && p + 1 < args.len() {
        Some(args[p + 1]@)
    } else {
        None
    }
}

/// Split the command line (program name first) into the address text and
/// the hex key text.
pub fn launch_args(args: &[String]) -> (r: LaunchArgs)
    ensures
        r.server_addr@ == spec_server_arg(args@),
        match r.noise_hex {
            Some(h) => spec_noise_arg(args@) == Some(h@),
            None => spec_noise_arg(args@) is None,
        },
{
    proof {
        reveal_strlit("127.0.0.1:7000");
        reveal_strlit("--noise");
    }
    let server_addr = if args.len() > 1 {
        args[1].clone()
    } else {
        String::from_str("127.0.0.1:7000")
    };
    let flag = String::from_str("--noise");
    let mut i: usize = 0;
    while i < args.len()
        invariant
            i <= args@.len(),
            flag@ == "--noise"@,
            server_addr@ == spec_server_arg(args@),
            noise_flag_from(args@, 0) == noise_flag_from(args@, i as nat),
        decreases args@.len() - i,
    {
        if args[i] == flag {
            let noise_hex = if i + 1 < args.len() {
                Some(args[i + 1].clone())
            } else {
                None
            };
            return LaunchArgs { server_addr, noise_hex };
        }
        i = i + 1;
    }
    LaunchArgs { server_addr, noise_hex: None }
}

/// Decode a 32-byte key from hex: `None` unless the text is exactly 64 hex
/// digits.
pub fn noise_key_from_hex(hex: &str) -> (r: Option<[u8; 32]>)
    ensures
        r is Some <==> hex_ok(hex.spec_bytes()) && hex.spec_bytes().len() == 64,
        r matches Some(k) ==> k@ == hex_decoded(hex.spec_bytes()),
{
    let bytes = hex.as_bytes();
    match decode_hex(bytes) {
        Ok(v) => {
            if v.len() == 32 {
                Some(key_from_bytes(&v))
            } else {
                None
            }
        },
        Err(_) => None,
    }
}

/// The identity file under a home directory: `<home>/.prism/client_identity.json`,
/// or `.prism/client_identity.json` (relative to the working directory)
/// when no home directory is known.
pub open spec fn identity_path_for(home: Option<Seq<char>>) -> Seq<char> {
    joined(
        joined(
            match home {
                Some(h) => h,
                None => Seq::<char>::empty(),
            },
            ".prism"@,
        ),
        "client_identity.json"@,
    )
}

/// The identity file under the given home directory (see `identity_path_for`).
pub fn identity_path_under(home: Option<String>) -> (p: String)
    ensures
        p@ == identity_path_for(opt_string_view(home)),
{
    proof {
        reveal_strlit("");
        reveal_strlit(".prism");
        reveal_strlit("client_identity.json");
    }
    let dir = match &home {
        Some(h) => join_path(h.as_str(), ".prism"),
        None => join_path("", ".prism"),
    };
    join_path(dir.as_str(), "client_identity.json")
}

/// Where the client keeps its identity: `~/.prism/client_identity.json`,
/// relative to the working directory when no home directory is known. The
/// home directory comes from the environment.
pub fn default_identity_path() -> (p: String)
    ensures
        exists|home: Option<Seq<char>>| p@ == #[trigger] identity_path_for(home),
{
    let home = user_home_dir();
    let ghost hv = opt_string_view(home);
    let p = identity_path_under(home);
    assert(p@ == identity_path_for(hv));
    p
}

/// The address the client dials: the first argument after the program name
/// whenever there is one, whatever follows it; the local default
/// 127.0.0.1:7000 only when there is none.
pub proof fn lemma_server_is_first_argument(args: Seq<String>)
    ensures
        args.len() >= 2 ==> spec_server_arg(args) == args[1]@,
        args.len() <= 1 ==> spec_server_arg(args) == "127.0.0.1:7000"@,
{
}

/// The key text is the argument right after the first `--noise`: there is
/// one exactly when some argument is `--noise` and the first such is not
/// the last argument.
pub proof fn lemma_noise_follows_first_flag(args: Seq<String>, p: int)
    requires
        0 <= p < args.len(),
        args[p]@ == "--noise"@,
        forall|q: int| 0 <= q < p ==> args[q]@ != "--noise"@,
    ensures
        p + 1 < args.len() ==> spec_noise_arg(args) == Some(args[p + 1]@),
        p + 1 == args.len() ==> spec_noise_arg(args) is None,
{
    lemma_noise_flag_from(args, 0, p);
}

/// Without any `--noise` argument there is no key text.
pub proof fn lemma_no_flag_no_noise(args: Seq<String>)
    requires
        forall|q: int| 0 <= q < args.len() ==> args[q]@ != "--noise"@,
    ensures
        spec_noise_arg(args) is None,
{
    lemma_noise_flag_absent(args, 0);
}

proof fn lemma_noise_flag_from(args: Seq<String>, i: nat, p: int)
    requires
        i <= p < args.len(),
        args[p]@ == "--noise"@,
        forall|q: int| i <= q < p ==> args[q]@ != "--noise"@,
    ensures
        noise_flag_from(args, i) == p,
    decreases p - i,
{
    if i < p {
        lemma_noise_flag_from(args, i + 1, p);
    }
}

proof fn lemma_noise_flag_absent(args: Seq<String>, i: nat)
    requires
        forall|q: int| i <= q < args.len() ==> args[q]@ != "--noise"@,
    ensures
        noise_flag_from(args, i) == -1,
    decreases args.len() - i,
{
    if i < args.len() {
        lemma_noise_flag_absent(args, i + 1);
    }
}

} // verus!
