//! The scoped mixnet exit: which mode it runs in, and the one place that it
//! leads to.

use crate::config;
use crate::config::Env;
use crate::text;
use crate::text::same;
use vstd::prelude::*;
use vstd::string::*;

verus! {

/// What `--help` prints.
pub const USAGE: &'static str = "\
floonet-mixexit - scoped Nym exit for a Floonet relay

Accepts incoming mixnet streams and pipes each one to ONE fixed upstream
(the co-located relay). Per-stream targets are never honored, so this is
structurally not an open proxy. The mixnet identity persists in the data
dir, keeping the nym address stable across restarts.

USAGE:
    floonet-mixexit [--help | --selftest]

MODES:
    (none)      serve: accept mixnet streams, pipe each to the upstream
    --selftest  connect to the mixnet, print the (stable) nym address and
                exit - never touches the upstream
    --help      this text

ENVIRONMENT:
    FLOONET_MIXEXIT_DIR    data dir for the persistent mixnet identity;
                           the nym address is also written to
                           <dir>/nym_address.txt   [default: ./mixexit-data]
    FLOONET_EXIT_UPSTREAM  fixed host:port every stream is piped to
                           [default: relay.goblin.st:443]
    RUST_LOG               nym-sdk log filter                [default: warn]
";

/// What the exit does.
pub enum ExitMode<S> {
    /// Print the usage.
    Help,
    /// Print the mixnet address and stop, without touching the upstream.
    SelfTest,
    /// Accept streams and pipe each to the upstream.
    Serve,
    /// Refuse an argument that is none.
    Unknown(S),
}

/// A mode over character sequences.
pub open spec fn mode_view(m: ExitMode<String>) -> ExitMode<Seq<char>> {
    match m {
        ExitMode::Help => ExitMode::Help,
        ExitMode::SelfTest => ExitMode::SelfTest,
        ExitMode::Serve => ExitMode::Serve,
        ExitMode::Unknown(s) => ExitMode::Unknown(s@),
    }
}

/// The mode that the first argument names.
pub open spec fn mode_of(arg: Option<Seq<char>>) -> ExitMode<Seq<char>> {
    match arg {
        None => ExitMode::Serve,
        Some(s) => if s == "--help"@ || s == "-h"@ {
            ExitMode::Help
        } else if s == "--selftest"@ {
            ExitMode::SelfTest
        } else {
            ExitMode::Unknown(s)
        },
    }
}

/// The mode that the first argument names.
pub fn exit_mode(arg: &Option<String>) -> (m: ExitMode<String>)
    ensures
        mode_view(m) == mode_of(text::opt_view(*arg)),
{
    match arg {
        None => ExitMode::Serve,
        Some(s) => {
            if same(s.as_str(), "--help") || same(s.as_str(), "-h") {
                ExitMode::Help
            } else if same(s.as_str(), "--selftest") {
                ExitMode::SelfTest
            } else {
                ExitMode::Unknown(s.clone())
            }
        },
    }
}

/// The directory that keeps the mixnet identity, which keeps the address the
/// same across restarts.
pub fn data_dir(env: &Env) -> (dir: String)
    ensures
        dir@ == config::text_var(env@, "FLOONET_MIXEXIT_DIR"@, "./mixexit-data"@),
{
    match env.var("FLOONET_MIXEXIT_DIR") {
        Some(dir) => dir.clone(),
        None => "./mixexit-data".to_owned(),
    }
}

/// The one upstream that every stream is piped to. Nothing that a stream says
/// can change it.
pub fn upstream(env: &Env) -> (host: String)
    ensures
        host@ == config::text_var(env@, "FLOONET_EXIT_UPSTREAM"@, "relay.goblin.st:443"@),
{
    match env.var("FLOONET_EXIT_UPSTREAM") {
        Some(host) => host.clone(),
        None => "relay.goblin.st:443".to_owned(),
    }
}

// ---------------------------------------------------------------------------
// Laws
// ---------------------------------------------------------------------------

/// Without an argument the exit serves; `--help` and `-h` print the usage,
/// `--selftest` tests, and anything else is refused.
pub proof fn arguments_name_the_mode(s: Seq<char>)
    ensures
        mode_of(None) == ExitMode::<Seq<char>>::Serve,
        mode_of(Some("--help"@)) == ExitMode::<Seq<char>>::Help,
        mode_of(Some("-h"@)) == ExitMode::<Seq<char>>::Help,
        mode_of(Some("--selftest"@)) == ExitMode::<Seq<char>>::SelfTest,
        s != "--help"@ && s != "-h"@ && s != "--selftest"@ ==> mode_of(Some(s)) == ExitMode::Unknown(
            s,
        ),
{
    reveal_strlit("--help");
    reveal_strlit("-h");
    reveal_strlit("--selftest");
    assert("--help"@.len() == 6 && "-h"@.len() == 2 && "--selftest"@.len() == 10);
}

} // verus!
