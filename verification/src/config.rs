//! Runtime configuration: everything that identifies one operator's name
//! authority, read from the environment at startup.

use crate::amount;
use crate::digits;
use crate::digits::{i64_text, parse_i64, parse_unsigned, u64_text};
use crate::names;
use crate::names::domain_reserved;
use crate::text;
use crate::text::{
    chars_of, part_before, same, space, split, strip_prefix, to_lower, trim, trim_trailing,
};
use vstd::prelude::*;
use vstd::string::*;

pub use crate::amount::{grin_to_nanogrin, nanogrin_to_grin};

verus! {

/// How this authority charges for its resources.
#[derive(Debug, Clone, Copy, PartialEq, Eq, Structural)]
pub enum PayMode {
    /// Everything is free.
    Off,
    /// Claiming a name requires a confirmed payment.
    Name,
    /// Publishing to the relay requires a confirmed payment.
    Write,
}

/// The mode that a word names, or why it is refused.
pub open spec fn pay_mode_of(s: Seq<char>) -> Result<PayMode, Seq<char>> {
    if s == "off"@ {
        Ok(PayMode::Off)
    } else if s == "name"@ {
        Ok(PayMode::Name)
    } else if s == "write"@ {
        Ok(PayMode::Write)
    } else {
        Err("FLOONET_PAY_MODE must be off, name or write (got `"@ + s + "`)"@)
    }
}

/// The mode as the startup log shows it.
pub open spec fn pay_mode_shown(m: PayMode) -> Seq<char> {
    match m {
        PayMode::Off => "Off"@,
        PayMode::Name => "Name"@,
        PayMode::Write => "Write"@,
    }
}

impl PayMode {
    /// The mode that a word names.
    pub fn parse(s: &str) -> (r: Result<PayMode, String>)
        ensures
            match (r, pay_mode_of(s@)) {
                (Ok(m), Ok(n)) => m == n,
                (Err(e), Err(f)) => e@ == f,
                _ => false,
            },
    {
        if same(s, "off") {
            return Ok(PayMode::Off);
        }
        if same(s, "name") {
            return Ok(PayMode::Name);
        }
        if same(s, "write") {
            return Ok(PayMode::Write);
        }
        let mut e = "FLOONET_PAY_MODE must be off, name or write (got `".to_owned();
        e.append(s);
        e.append("`)");
        Err(e)
    }

    fn shown(&self) -> (s: &'static str)
        ensures
            s@ == pay_mode_shown(*self),
    {
        match self {
            PayMode::Off => "Off",
            PayMode::Name => "Name",
            PayMode::Write => "Write",
        }
    }
}

/// Resolved runtime configuration. Spans of time are in seconds.
#[derive(Debug, Clone)]
pub struct Config {
    /// Bare host the names live under, e.g. `floonet.example` (the `@domain`
    /// part of `name@domain`).
    pub domain: String,
    /// Public base URL, e.g. `https://floonet.example`. The expected URL of
    /// every authenticated request is built from it, so it must equal the
    /// scheme and host that clients reach.
    pub base_url: String,
    /// Relays advertised in `/.well-known/nostr.json`.
    pub relays: Vec<String>,
    /// Address the HTTP server binds.
    pub bind_addr: String,
    /// SQLite database path.
    pub db_path: String,
    /// After releasing a name, how long a key waits before claiming another.
    pub name_change_cooldown: u64,
    /// Greatest age of an accepted auth event.
    pub auth_max_age_secs: i64,
    /// Fewest characters of a name.
    pub name_min: usize,
    /// Most characters of a name.
    pub name_max: usize,
    /// Read requests per address and `read_rate_window`.
    pub read_rate_max: usize,
    /// The window that `read_rate_max` counts in.
    pub read_rate_window: u64,
    /// Write requests per address and `write_rate_window`.
    pub write_rate_max: usize,
    /// The window that `write_rate_max` counts in.
    pub write_rate_window: u64,
    /// Names nobody may claim: the operator's own domain labels and those of
    /// the optional reserved file.
    pub extra_reserved: Vec<String>,
    /// Paid mode. `Off` runs a free authority.
    pub pay_mode: PayMode,
    /// Price of a name, in nanogrin.
    pub name_price_nanogrin: u64,
    /// Price of write access, in nanogrin.
    pub write_price_nanogrin: u64,
    /// GoblinPay server base URL.
    pub goblinpay_url: String,
    /// GoblinPay API token.
    pub goblinpay_token: String,
    /// GoblinPay webhook secret: where there is one, the webhook is served.
    pub goblinpay_webhook_secret: Option<String>,
    /// Least time between two status polls of one grant.
    pub paid_poll_interval: u64,
    /// Whether the name-transfer routes exist.
    pub allow_transfers: bool,
    /// Grin node foreign-API addresses, separated by commas or white space.
    pub grin_node_url: Option<String>,
    /// Confirmations that a payment kernel needs before a claim.
    pub transfer_min_conf: u64,
    /// Longest time to live of an offer.
    pub transfer_max_offer_ttl: i64,
    /// How long after an offer's death a claim may still come.
    pub transfer_claim_grace: i64,
}

// ---------------------------------------------------------------------------
// Validation
// ---------------------------------------------------------------------------

/// The bare host of an `https://` URL: what stands before the first `/` and
/// before the first `:` in that.
pub open spec fn bare_host(after_scheme: Seq<char>) -> Seq<char> {
    text::before(text::before(after_scheme, '/'), ':')
}

/// A character that separates node addresses.
pub open spec fn is_separator(c: char) -> bool {
    c == ',' || text::is_space(c)
}

/// The runs between the separators of `s`: those that are closed, none of
/// them empty, and the one that is still open at the end.
pub open spec fn runs(s: Seq<char>) -> (Seq<Seq<char>>, Seq<char>)
    decreases s.len(),
{
    if s.len() == 0 {
        (Seq::empty(), Seq::empty())
    } else {
        let (closed, open) = runs(s.drop_last());
        if !is_separator(s.last()) {
            (closed, open.push(s.last()))
        } else if open.len() > 0 {
            (closed.push(open), Seq::empty())
        } else {
            (closed, open)
        }
    }
}

/// The words of a list separated by commas or white space.
pub open spec fn words(s: Seq<char>) -> Seq<Seq<char>> {
    let (closed, open) = runs(s);
    if open.len() > 0 {
        closed.push(open)
    } else {
        closed
    }
}

/// The addresses of the Grin nodes.
pub open spec fn endpoints(cfg: ConfigView) -> Seq<Seq<char>> {
    match cfg.grin_node_url {
        Some(list) => words(list),
        None => Seq::empty(),
    }
}

/// Why a configuration is refused, if it is.
pub open spec fn refusal(cfg: ConfigView) -> Option<Seq<char>> {
    if cfg.domain.len() == 0 {
        Some("FLOONET_DOMAIN must not be empty"@)
    } else if text::without_prefix(cfg.base_url, "https://"@) is None {
        Some("FLOONET_BASE_URL must start with https:// (got `"@ + cfg.base_url + "`)"@)
    } else {
        let host = text::without_prefix(cfg.base_url, "https://"@)->0;
        if host.len() == 0 {
            Some("FLOONET_BASE_URL has no host"@)
        } else if bare_host(host) != cfg.domain {
            Some(
                "FLOONET_BASE_URL host `"@ + bare_host(host)
                    + "` does not match FLOONET_DOMAIN `"@ + cfg.domain + "`"@,
            )
        } else if cfg.name_min == 0 || cfg.name_min > cfg.name_max {
            Some(
                "invalid name length bounds: min="@ + digits::decimal(cfg.name_min) + " max="@
                    + digits::decimal(cfg.name_max),
            )
        } else if cfg.pay_mode != PayMode::Off && cfg.goblinpay_url.len() == 0 {
            Some("FLOONET_PAY_MODE is on but GOBLINPAY_URL is not set"@)
        } else if cfg.pay_mode != PayMode::Off && cfg.goblinpay_token.len() == 0 {
            Some(
                "FLOONET_PAY_MODE is on but no GoblinPay token is set (GOBLINPAY_TOKEN or GOBLINPAY_TOKEN_FILE)"@,
            )
        } else if cfg.pay_mode == PayMode::Name && cfg.name_price_nanogrin == 0 {
            Some("FLOONET_PAY_MODE=name needs FLOONET_NAME_PRICE_GRIN > 0"@)
        } else if cfg.pay_mode == PayMode::Write && cfg.write_price_nanogrin == 0 {
            Some("FLOONET_PAY_MODE=write needs FLOONET_WRITE_PRICE_GRIN > 0"@)
        } else if cfg.allow_transfers && endpoints(cfg).len() == 0 {
            Some("FLOONET_TRANSFERS is on but FLOONET_GRIN_NODE_URL is not set"@)
        } else {
            None
        }
    }
}

/// What a configuration holds.
pub struct ConfigView {
    pub domain: Seq<char>,
    pub base_url: Seq<char>,
    pub relays: Seq<Seq<char>>,
    pub bind_addr: Seq<char>,
    pub db_path: Seq<char>,
    pub name_change_cooldown: nat,
    pub auth_max_age_secs: int,
    pub name_min: nat,
    pub name_max: nat,
    pub read_rate_max: nat,
    pub read_rate_window: nat,
    pub write_rate_max: nat,
    pub write_rate_window: nat,
    pub extra_reserved: Seq<Seq<char>>,
    pub pay_mode: PayMode,
    pub name_price_nanogrin: nat,
    pub write_price_nanogrin: nat,
    pub goblinpay_url: Seq<char>,
    pub goblinpay_token: Seq<char>,
    pub goblinpay_webhook_secret: Option<Seq<char>>,
    pub paid_poll_interval: nat,
    pub allow_transfers: bool,
    pub grin_node_url: Option<Seq<char>>,
    pub transfer_min_conf: nat,
    pub transfer_max_offer_ttl: int,
    pub transfer_claim_grace: int,
}

impl View for Config {
    type V = ConfigView;

    open spec fn view(&self) -> ConfigView {
        ConfigView {
            domain: self.domain@,
            base_url: self.base_url@,
            relays: text::views(self.relays@),
            bind_addr: self.bind_addr@,
            db_path: self.db_path@,
            name_change_cooldown: self.name_change_cooldown as nat,
            auth_max_age_secs: self.auth_max_age_secs as int,
            name_min: self.name_min as nat,
            name_max: self.name_max as nat,
            read_rate_max: self.read_rate_max as nat,
            read_rate_window: self.read_rate_window as nat,
            write_rate_max: self.write_rate_max as nat,
            write_rate_window: self.write_rate_window as nat,
            extra_reserved: text::views(self.extra_reserved@),
            pay_mode: self.pay_mode,
            name_price_nanogrin: self.name_price_nanogrin as nat,
            write_price_nanogrin: self.write_price_nanogrin as nat,
            goblinpay_url: self.goblinpay_url@,
            goblinpay_token: self.goblinpay_token@,
            goblinpay_webhook_secret: text::opt_view(self.goblinpay_webhook_secret),
            paid_poll_interval: self.paid_poll_interval as nat,
            allow_transfers: self.allow_transfers,
            grin_node_url: text::opt_view(self.grin_node_url),
            transfer_min_conf: self.transfer_min_conf as nat,
            transfer_max_offer_ttl: self.transfer_max_offer_ttl as int,
            transfer_claim_grace: self.transfer_claim_grace as int,
        }
    }
}

/// The words of a list separated by commas or white space.
pub fn split_words(list: &str) -> (out: Vec<String>)
    ensures
        text::views(out@) == words(list@),
{
    let v = chars_of(list);
    let mut out: Vec<String> = Vec::new();
    let mut open = String::new();
    let mut i: usize = 0;
    assert(text::views(out@) =~= Seq::<Seq<char>>::empty());
    while i < v.len()
        invariant
            i <= v.len(),
            v@ == list@,
            runs(list@.take(i as int)) == (text::views(out@), open@),
        decreases v.len() - i,
    {
        let c = v[i];
        i = i + 1;
        assert(list@.take(i as int).drop_last() =~= list@.take(i - 1));
        let ghost closed = out@;
        if !(c == ',' || space(c)) {
            open.push(c);
        } else if !open.as_str().is_empty() {
            out.push(open);
            assert(text::views(out@) =~= text::views(closed).push(open@));
            open = String::new();
        }
    }
    assert(list@.take(list@.len() as int) =~= list@);
    let ghost closed = out@;
    if !open.as_str().is_empty() {
        out.push(open);
        assert(text::views(out@) =~= text::views(closed).push(open@));
    }
    out
}

impl Config {
    /// The Grin node foreign-API addresses, in the order to try them in.
    pub fn grin_node_endpoints(&self) -> (list: Vec<String>)
        ensures
            text::views(list@) == endpoints(self@),
    {
        match &self.grin_node_url {
            Some(list) => split_words(list.as_str()),
            None => {
                let list: Vec<String> = Vec::new();
                assert(text::views(list@) =~= Seq::<Seq<char>>::empty());
                list
            },
        }
    }

    /// Consistency checks before anything starts. A wrong base URL breaks
    /// every authenticated call, so it is refused; so is a paid mode without
    /// a price or a payment server, and a marketplace without a Grin node.
    pub fn validate(&self) -> (r: Result<(), String>)
        ensures
            match r {
                Ok(_) => refusal(self@) is None,
                Err(e) => refusal(self@) == Some(e@),
            },
    {
        if self.domain.as_str().is_empty() {
            return Err("FLOONET_DOMAIN must not be empty".to_owned());
        }
        let host = match strip_prefix(self.base_url.as_str(), "https://") {
            Some(h) => h,
            None => {
                let mut e = "FLOONET_BASE_URL must start with https:// (got `".to_owned();
                e.append(self.base_url.as_str());
                e.append("`)");
                return Err(e);
            },
        };
        if host.is_empty() {
            return Err("FLOONET_BASE_URL has no host".to_owned());
        }
        let host_bare = part_before(part_before(host, '/'), ':');
        if !same(host_bare, self.domain.as_str()) {
            let mut e = "FLOONET_BASE_URL host `".to_owned();
            e.append(host_bare);
            e.append("` does not match FLOONET_DOMAIN `");
            e.append(self.domain.as_str());
            e.append("`");
            return Err(e);
        }
        if self.name_min == 0 || self.name_min > self.name_max {
            let mut e = "invalid name length bounds: min=".to_owned();
            let min = u64_text(self.name_min as u64);
            let max = u64_text(self.name_max as u64);
            e.append(min.as_str());
            e.append(" max=");
            e.append(max.as_str());
            return Err(e);
        }
        if self.pay_mode != PayMode::Off {
            if self.goblinpay_url.as_str().is_empty() {
                return Err("FLOONET_PAY_MODE is on but GOBLINPAY_URL is not set".to_owned());
            }
            if self.goblinpay_token.as_str().is_empty() {
                return Err(
                    "FLOONET_PAY_MODE is on but no GoblinPay token is set (GOBLINPAY_TOKEN or GOBLINPAY_TOKEN_FILE)".to_owned(),
                );
            }
        }
        if self.pay_mode == PayMode::Name && self.name_price_nanogrin == 0 {
            return Err("FLOONET_PAY_MODE=name needs FLOONET_NAME_PRICE_GRIN > 0".to_owned());
        }
        if self.pay_mode == PayMode::Write && self.write_price_nanogrin == 0 {
            return Err("FLOONET_PAY_MODE=write needs FLOONET_WRITE_PRICE_GRIN > 0".to_owned());
        }
        if self.allow_transfers {
            let nodes = self.grin_node_endpoints();
            assert(text::views(nodes@).len() == nodes@.len());
            if nodes.len() == 0 {
                return Err(
                    "FLOONET_TRANSFERS is on but FLOONET_GRIN_NODE_URL is not set".to_owned(),
                );
            }
        }
        Ok(())
    }
}

// ---------------------------------------------------------------------------
// Loading
// ---------------------------------------------------------------------------

/// What is known of the machine: the environment variables that are set, and
/// what came of reading the files that were asked for.
pub struct Env {
    /// Each variable that is set, with its value.
    pub vars: Vec<(String, String)>,
    /// Each file that was read, with its text or the system's complaint.
    pub files: Vec<(String, Result<String, String>)>,
}

/// What an [`Env`] holds.
pub struct EnvView {
    pub vars: Seq<(Seq<char>, Seq<char>)>,
    pub files: Seq<(Seq<char>, Result<Seq<char>, Seq<char>>)>,
}

/// The pairs as pairs of character sequences.
pub open spec fn pair_views(list: Seq<(String, String)>) -> Seq<(Seq<char>, Seq<char>)> {
    list.map_values(|p: (String, String)| (p.0@, p.1@))
}

/// A read's outcome over character sequences.
pub open spec fn read_view(r: Result<String, String>) -> Result<Seq<char>, Seq<char>> {
    match r {
        Ok(s) => Ok(s@),
        Err(e) => Err(e@),
    }
}

impl View for Env {
    type V = EnvView;

    open spec fn view(&self) -> EnvView {
        EnvView {
            vars: pair_views(self.vars@),
            files: self.files@.map_values(
                |p: (String, Result<String, String>)| (p.0@, read_view(p.1)),
            ),
        }
    }
}

/// The value that stands first under `key`.
pub open spec fn first_under<T>(list: Seq<(Seq<char>, T)>, key: Seq<char>) -> Option<T>
    decreases list.len(),
{
    if list.len() == 0 {
        None
    } else if list[0].0 == key {
        Some(list[0].1)
    } else {
        first_under(list.skip(1), key)
    }
}

/// The value of a variable, where it is set.
pub open spec fn var(env: EnvView, key: Seq<char>) -> Option<Seq<char>> {
    first_under(env.vars, key)
}

/// A variable's value, or a default.
pub open spec fn text_var(env: EnvView, key: Seq<char>, default: Seq<char>) -> Seq<char> {
    match var(env, key) {
        Some(v) => v,
        None => default,
    }
}

/// A variable's number, or the default where it holds none up to `max`.
pub open spec fn number_var(env: EnvView, key: Seq<char>, max: nat, default: nat) -> nat {
    match var(env, key) {
        Some(v) => match digits::unsigned_value(v, max) {
            Some(n) => n,
            None => default,
        },
        None => default,
    }
}

/// A variable's signed number, or the default where it holds none.
pub open spec fn signed_var(env: EnvView, key: Seq<char>, default: int) -> int {
    match var(env, key) {
        Some(v) => match digits::signed_value(v) {
            Some(n) => n,
            None => default,
        },
        None => default,
    }
}

/// Whether a variable says `true`.
pub open spec fn flag_var(env: EnvView, key: Seq<char>) -> bool {
    var(env, key) == Some("true"@)
}

/// A variable's value, where it is set to something.
pub open spec fn filled_var(env: EnvView, key: Seq<char>) -> Option<Seq<char>> {
    match var(env, key) {
        Some(v) => if v.len() > 0 {
            Some(v)
        } else {
            None
        },
        None => None,
    }
}

/// The text of the file that a variable names.
pub enum FileVar {
    /// The variable names no file.
    Unset,
    /// The file has not been read yet.
    Unread(Seq<char>),
    /// The file cannot be read: why the configuration is refused.
    Failed(Seq<char>),
    /// The file's text.
    Text(Seq<char>),
}

/// The text of the file that the variable `key` names.
pub open spec fn file_var(env: EnvView, key: Seq<char>) -> FileVar {
    match filled_var(env, key) {
        None => FileVar::Unset,
        Some(path) => match first_under(env.files, path) {
            None => FileVar::Unread(path),
            Some(Err(e)) => FileVar::Failed(key + " `"@ + path + "` unreadable: "@ + e),
            Some(Ok(s)) => FileVar::Text(s),
        },
    }
}

/// The items that hold something besides white space, trimmed.
pub open spec fn trimmed_items(list: Seq<Seq<char>>) -> Seq<Seq<char>>
    decreases list.len(),
{
    if list.len() == 0 {
        Seq::empty()
    } else {
        let rest = trimmed_items(list.drop_last());
        let item = text::trimmed(list.last());
        if item.len() > 0 {
            rest.push(item)
        } else {
            rest
        }
    }
}

/// The names on the lines of a reserved file: trimmed and in lower case,
/// without blank lines and those that start with `#`.
pub open spec fn reserved_lines(lines: Seq<Seq<char>>) -> Seq<Seq<char>>
    decreases lines.len(),
{
    if lines.len() == 0 {
        Seq::empty()
    } else {
        let rest = reserved_lines(lines.drop_last());
        let line = text::trimmed(lines.last());
        if line.len() == 0 || line[0] == '#' {
            rest
        } else {
            rest.push(text::lower(line))
        }
    }
}

/// What comes of loading the configuration.
pub enum LoadView {
    /// The configuration.
    Ready(ConfigView),
    /// Why there is none.
    Refused(Seq<char>),
    /// A file to be read first.
    Read(Seq<char>),
}

/// The secret that a file or a variable holds: the file counts where it is
/// named, and an empty secret is none.
pub open spec fn webhook_secret(env: EnvView, from_file: FileVar) -> Option<Seq<char>> {
    match from_file {
        FileVar::Text(s) => if text::trimmed(s).len() > 0 {
            Some(text::trimmed(s))
        } else {
            None
        },
        _ => filled_var(env, "GOBLINPAY_WEBHOOK_SECRET"@),
    }
}

/// The configuration that the environment describes, before it is validated.
pub open spec fn described(
    env: EnvView,
    reserved: FileVar,
    token: FileVar,
    secret: FileVar,
    mode: PayMode,
    name_price: nat,
    write_price: nat,
) -> ConfigView {
    let domain = text_var(env, "FLOONET_DOMAIN"@, "floonet.example"@);
    ConfigView {
        domain,
        base_url: text_var(env, "FLOONET_BASE_URL"@, "https://floonet.example"@),
        relays: trimmed_items(
            text::pieces(text_var(env, "FLOONET_RELAYS"@, "wss://floonet.example"@), ','),
        ),
        bind_addr: text_var(env, "FLOONET_NAMES_BIND"@, "127.0.0.1:8191"@),
        db_path: text_var(env, "FLOONET_NAMES_DB"@, "/var/lib/floonet-authority/names.db"@),
        name_change_cooldown: number_var(
            env,
            "FLOONET_NAME_CHANGE_COOLDOWN_SECS"@,
            u64::MAX as nat,
            600,
        ),
        auth_max_age_secs: signed_var(env, "FLOONET_AUTH_MAX_AGE_SECS"@, 60),
        name_min: number_var(env, "FLOONET_NAME_MIN"@, usize::MAX as nat, 3),
        name_max: number_var(env, "FLOONET_NAME_MAX"@, usize::MAX as nat, 20),
        read_rate_max: number_var(env, "FLOONET_READ_RATE_MAX"@, usize::MAX as nat, 120),
        read_rate_window: number_var(
            env,
            "FLOONET_READ_RATE_WINDOW_SECS"@,
            u64::MAX as nat,
            60,
        ),
        write_rate_max: number_var(env, "FLOONET_WRITE_RATE_MAX"@, usize::MAX as nat, 10),
        write_rate_window: number_var(
            env,
            "FLOONET_WRITE_RATE_WINDOW_SECS"@,
            u64::MAX as nat,
            3600,
        ),
        extra_reserved: names::own_labels(domain) + match reserved {
            FileVar::Text(s) => reserved_lines(text::pieces(s, '\n')),
            _ => Seq::empty(),
        },
        pay_mode: mode,
        name_price_nanogrin: name_price,
        write_price_nanogrin: write_price,
        goblinpay_url: text::without_trailing(text_var(env, "GOBLINPAY_URL"@, ""@), '/'),
        goblinpay_token: match token {
            FileVar::Text(s) => text::trimmed(s),
            _ => text_var(env, "GOBLINPAY_TOKEN"@, ""@),
        },
        goblinpay_webhook_secret: webhook_secret(env, secret),
        paid_poll_interval: number_var(
            env,
            "FLOONET_PAID_POLL_INTERVAL_SECS"@,
            u64::MAX as nat,
            5,
        ),
        allow_transfers: flag_var(env, "FLOONET_TRANSFERS"@),
        grin_node_url: filled_var(env, "FLOONET_GRIN_NODE_URL"@),
        transfer_min_conf: number_var(env, "FLOONET_TRANSFER_MIN_CONF"@, u64::MAX as nat, 10),
        transfer_max_offer_ttl: signed_var(env, "FLOONET_TRANSFER_MAX_OFFER_TTL"@, 2592000),
        transfer_claim_grace: signed_var(env, "FLOONET_TRANSFER_CLAIM_GRACE"@, 86400),
    }
}

/// What comes of loading the configuration from `env`. The first thing that
/// is wrong decides, and a file is asked for only when its turn comes.
pub open spec fn load(env: EnvView) -> LoadView {
    let reserved = file_var(env, "FLOONET_RESERVED_FILE"@);
    let mode = pay_mode_of(text_var(env, "FLOONET_PAY_MODE"@, "off"@));
    let name_price = amount::amount(text_var(env, "FLOONET_NAME_PRICE_GRIN"@, "0"@));
    let write_price = amount::amount(text_var(env, "FLOONET_WRITE_PRICE_GRIN"@, "0"@));
    let token = file_var(env, "GOBLINPAY_TOKEN_FILE"@);
    let secret = file_var(env, "GOBLINPAY_WEBHOOK_SECRET_FILE"@);
    if reserved is Unread {
        LoadView::Read(reserved->Unread_0)
    } else if reserved is Failed {
        LoadView::Refused(reserved->Failed_0)
    } else if mode is Err {
        LoadView::Refused(mode->Err_0)
    } else if name_price is Err {
        LoadView::Refused(name_price->Err_0)
    } else if write_price is Err {
        LoadView::Refused(write_price->Err_0)
    } else if token is Unread {
        LoadView::Read(token->Unread_0)
    } else if token is Failed {
        LoadView::Refused(token->Failed_0)
    } else if secret is Unread {
        LoadView::Read(secret->Unread_0)
    } else if secret is Failed {
        LoadView::Refused(secret->Failed_0)
    } else {
        let cfg = described(
            env,
            reserved,
            token,
            secret,
            mode->Ok_0,
            name_price->Ok_0,
            write_price->Ok_0,
        );
        match refusal(cfg) {
            Some(e) => LoadView::Refused(e),
            None => LoadView::Ready(cfg),
        }
    }
}

/// What comes of loading the configuration.
pub enum Load {
    /// The configuration.
    Ready(Config),
    /// Why there is none.
    Refused(String),
    /// A file to be read first: load again with its text in [`Env::files`].
    Read(String),
}

impl View for Load {
    type V = LoadView;

    open spec fn view(&self) -> LoadView {
        match self {
            Load::Ready(cfg) => LoadView::Ready(cfg@),
            Load::Refused(e) => LoadView::Refused(e@),
            Load::Read(path) => LoadView::Read(path@),
        }
    }
}

/// A file that was looked up.
enum FileText {
    Unset,
    Unread(String),
    Failed(String),
    Text(String),
}

impl View for FileText {
    type V = FileVar;

    closed spec fn view(&self) -> FileVar {
        match self {
            FileText::Unset => FileVar::Unset,
            FileText::Unread(p) => FileVar::Unread(p@),
            FileText::Failed(e) => FileVar::Failed(e@),
            FileText::Text(s) => FileVar::Text(s@),
        }
    }
}

impl Env {
    /// The value of a variable, where it is set.
    pub fn var(&self, key: &str) -> (v: Option<&String>)
        ensures
            match v {
                Some(s) => var(self@, key@) == Some(s@),
                None => var(self@, key@) is None,
            },
    {
        let mut i: usize = 0;
        assert(self@.vars.skip(0) =~= self@.vars);
        while i < self.vars.len()
            invariant
                i <= self.vars.len(),
                var(self@, key@) == first_under(self@.vars.skip(i as int), key@),
            decreases self.vars.len() - i,
        {
            assert(self@.vars.skip(i as int)[0] == (self.vars@[i as int].0@, self.vars@[i as int].1@));
            if same(self.vars[i].0.as_str(), key) {
                return Some(&self.vars[i].1);
            }
            assert(self@.vars.skip(i as int).skip(1) =~= self@.vars.skip(i + 1));
            i = i + 1;
        }
        None
    }

    fn text(&self, key: &str, default: &str) -> (s: String)
        ensures
            s@ == text_var(self@, key@, default@),
    {
        match self.var(key) {
            Some(v) => v.clone(),
            None => default.to_owned(),
        }
    }

    fn number(&self, key: &str, max: u64, default: u64) -> (n: u64)
        requires
            default <= max,
        ensures
            n == number_var(self@, key@, max as nat, default as nat),
            n <= max,
    {
        match self.var(key) {
            Some(v) => match parse_unsigned(v.as_str(), max) {
                Some(n) => n,
                None => default,
            },
            None => default,
        }
    }

    fn signed(&self, key: &str, default: i64) -> (n: i64)
        ensures
            n == signed_var(self@, key@, default as int),
    {
        match self.var(key) {
            Some(v) => match parse_i64(v.as_str()) {
                Some(n) => n,
                None => default,
            },
            None => default,
        }
    }

    fn flag(&self, key: &str) -> (b: bool)
        ensures
            b == flag_var(self@, key@),
    {
        match self.var(key) {
            Some(v) => same(v.as_str(), "true"),
            None => false,
        }
    }

    /// The value of a variable, where it is set to something.
    pub fn filled(&self, key: &str) -> (v: Option<String>)
        ensures
            text::opt_view(v) == filled_var(self@, key@),
    {
        match self.var(key) {
            Some(v) => {
                if v.as_str().is_empty() {
                    None
                } else {
                    Some(v.clone())
                }
            },
            None => None,
        }
    }

    fn file(&self, key: &str) -> (r: FileText)
        ensures
            r@ == file_var(self@, key@),
    {
        let path = match self.filled(key) {
            Some(p) => p,
            None => {
                return FileText::Unset;
            },
        };
        let mut i: usize = 0;
        assert(self@.files.skip(0) =~= self@.files);
        while i < self.files.len()
            invariant
                i <= self.files.len(),
                filled_var(self@, key@) == Some(path@),
                first_under(self@.files, path@) == first_under(self@.files.skip(i as int), path@),
            decreases self.files.len() - i,
        {
            assert(self@.files.skip(i as int)[0] == (
                self.files@[i as int].0@,
                read_view(self.files@[i as int].1),
            ));
            if same(self.files[i].0.as_str(), path.as_str()) {
                return match &self.files[i].1 {
                    Ok(s) => FileText::Text(s.clone()),
                    Err(e) => {
                        let mut m = key.to_owned();
                        m.append(" `");
                        m.append(path.as_str());
                        m.append("` unreadable: ");
                        m.append(e.as_str());
                        FileText::Failed(m)
                    },
                };
            }
            assert(self@.files.skip(i as int).skip(1) =~= self@.files.skip(i + 1));
            i = i + 1;
        }
        FileText::Unread(path)
    }
}

/// The relays of a list separated by commas.
fn relay_list(list: &str) -> (out: Vec<String>)
    ensures
        text::views(out@) == trimmed_items(text::pieces(list@, ',')),
{
    let items = split(list, ',');
    let ghost all = text::views(items@);
    let mut out: Vec<String> = Vec::new();
    let mut i: usize = 0;
    assert(text::views(out@) =~= Seq::<Seq<char>>::empty());
    while i < items.len()
        invariant
            i <= items.len(),
            all == text::views(items@),
            text::views(out@) == trimmed_items(all.take(i as int)),
        decreases items.len() - i,
    {
        let item = trim(items[i].as_str());
        i = i + 1;
        assert(all.take(i as int).drop_last() =~= all.take(i - 1));
        let ghost kept = out@;
        if !item.is_empty() {
            out.push(item.to_owned());
            assert(text::views(out@) =~= text::views(kept).push(item@));
        }
    }
    assert(all.take(all.len() as int) =~= all);
    out
}

/// The names in the text of a reserved file: one on each line, trimmed and in
/// lower case; blank lines and `#` comments are passed over.
pub fn reserved_names(file: &str) -> (out: Vec<String>)
    ensures
        text::views(out@) == reserved_lines(text::pieces(file@, '\n')),
{
    let lines = split(file, '\n');
    let ghost all = text::views(lines@);
    let mut out: Vec<String> = Vec::new();
    let mut i: usize = 0;
    assert(text::views(out@) =~= Seq::<Seq<char>>::empty());
    while i < lines.len()
        invariant
            i <= lines.len(),
            all == text::views(lines@),
            text::views(out@) == reserved_lines(all.take(i as int)),
        decreases lines.len() - i,
    {
        let line = trim(lines[i].as_str());
        i = i + 1;
        assert(all.take(i as int).drop_last() =~= all.take(i - 1));
        let ghost kept = out@;
        if !line.is_empty() && line.get_char(0) != '#' {
            let name = to_lower(line);
            out.push(name);
            assert(text::views(out@) =~= text::views(kept).push(name@));
        }
    }
    assert(all.take(all.len() as int) =~= all);
    out
}

impl Config {
    /// Load the configuration from what is known of the environment, and
    /// validate it.
    pub fn from_env(env: &Env) -> (r: Load)
        ensures
            r@ == load(env@),
    {
        let reserved = env.file("FLOONET_RESERVED_FILE");
        let extra = match &reserved {
            FileText::Unread(path) => {
                return Load::Read(path.clone());
            },
            FileText::Failed(e) => {
                return Load::Refused(e.clone());
            },
            FileText::Text(s) => reserved_names(s.as_str()),
            FileText::Unset => Vec::new(),
        };
        let mode = env.text("FLOONET_PAY_MODE", "off");
        let pay_mode = match PayMode::parse(mode.as_str()) {
            Ok(m) => m,
            Err(e) => {
                return Load::Refused(e);
            },
        };
        let price = env.text("FLOONET_NAME_PRICE_GRIN", "0");
        let name_price_nanogrin: u64 = match grin_to_nanogrin(price.as_str()) {
            Ok(n) => n,
            Err(e) => {
                return Load::Refused(e);
            },
        };
        let price = env.text("FLOONET_WRITE_PRICE_GRIN", "0");
        let write_price_nanogrin: u64 = match grin_to_nanogrin(price.as_str()) {
            Ok(n) => n,
            Err(e) => {
                return Load::Refused(e);
            },
        };
        let token = env.file("GOBLINPAY_TOKEN_FILE");
        let goblinpay_token = match &token {
            FileText::Unread(path) => {
                return Load::Read(path.clone());
            },
            FileText::Failed(e) => {
                return Load::Refused(e.clone());
            },
            FileText::Text(s) => trim(s.as_str()).to_owned(),
            FileText::Unset => env.text("GOBLINPAY_TOKEN", ""),
        };
        let secret = env.file("GOBLINPAY_WEBHOOK_SECRET_FILE");
        let goblinpay_webhook_secret = match &secret {
            FileText::Unread(path) => {
                return Load::Read(path.clone());
            },
            FileText::Failed(e) => {
                return Load::Refused(e.clone());
            },
            FileText::Text(s) => {
                let s = trim(s.as_str());
                if s.is_empty() {
                    None
                } else {
                    Some(s.to_owned())
                }
            },
            FileText::Unset => env.filled("GOBLINPAY_WEBHOOK_SECRET"),
        };
        let domain = env.text("FLOONET_DOMAIN", "floonet.example");
        let mut extra_reserved = domain_reserved(domain.as_str());
        let ghost own = extra_reserved@;
        let ghost added = extra@;
        let mut extra = extra;
        extra_reserved.append(&mut extra);
        proof {
            assert(text::views(extra_reserved@) =~= text::views(own) + text::views(added));
            if reserved is Unset {
                assert(text::views(added) =~= Seq::<Seq<char>>::empty());
            }
        }
        let relays = env.text("FLOONET_RELAYS", "wss://floonet.example");
        let url = env.text("GOBLINPAY_URL", "");
        let cfg = Config {
            domain,
            base_url: env.text("FLOONET_BASE_URL", "https://floonet.example"),
            relays: relay_list(relays.as_str()),
            bind_addr: env.text("FLOONET_NAMES_BIND", "127.0.0.1:8191"),
            db_path: env.text("FLOONET_NAMES_DB", "/var/lib/floonet-authority/names.db"),
            name_change_cooldown: env.number("FLOONET_NAME_CHANGE_COOLDOWN_SECS", u64::MAX, 600),
            auth_max_age_secs: env.signed("FLOONET_AUTH_MAX_AGE_SECS", 60),
            name_min: env.number("FLOONET_NAME_MIN", usize::MAX as u64, 3) as usize,
            name_max: env.number("FLOONET_NAME_MAX", usize::MAX as u64, 20) as usize,
            read_rate_max: env.number("FLOONET_READ_RATE_MAX", usize::MAX as u64, 120) as usize,
            read_rate_window: env.number("FLOONET_READ_RATE_WINDOW_SECS", u64::MAX, 60),
            write_rate_max: env.number("FLOONET_WRITE_RATE_MAX", usize::MAX as u64, 10) as usize,
            write_rate_window: env.number("FLOONET_WRITE_RATE_WINDOW_SECS", u64::MAX, 3600),
            extra_reserved,
            pay_mode,
            name_price_nanogrin,
            write_price_nanogrin,
            goblinpay_url: trim_trailing(url.as_str(), '/').to_owned(),
            goblinpay_token,
            goblinpay_webhook_secret,
            paid_poll_interval: env.number("FLOONET_PAID_POLL_INTERVAL_SECS", u64::MAX, 5),
            allow_transfers: env.flag("FLOONET_TRANSFERS"),
            grin_node_url: env.filled("FLOONET_GRIN_NODE_URL"),
            transfer_min_conf: env.number("FLOONET_TRANSFER_MIN_CONF", u64::MAX, 10),
            transfer_max_offer_ttl: env.signed("FLOONET_TRANSFER_MAX_OFFER_TTL", 2592000),
            transfer_claim_grace: env.signed("FLOONET_TRANSFER_CLAIM_GRACE", 86400),
        };
        match cfg.validate() {
            Ok(_) => Load::Ready(cfg),
            Err(e) => Load::Refused(e),
        }
    }
}

// ---------------------------------------------------------------------------
// The startup log
// ---------------------------------------------------------------------------

/// What `{:?}` makes of a list of strings.
pub uninterp spec fn list_shown(list: Seq<Seq<char>>) -> Seq<char>;

/// The `Debug` form of a `Vec<String>`, through `format!`. It is a function of
/// the strings alone; its quoting and escaping are std's and not stated.
#[verifier::external_body]
fn show_list(list: &Vec<String>) -> (s: String)
    ensures
        s@ == list_shown(text::views(list@)),
{
    format!("{:?}", list)
}

/// The line that describes a configuration in the startup log.
pub open spec fn summary_text(cfg: ConfigView) -> Seq<char> {
    "domain="@ + cfg.domain + " base_url="@ + cfg.base_url + " relays="@ + list_shown(cfg.relays)
        + " bind="@ + cfg.bind_addr + " db="@ + cfg.db_path + " name_len="@ + digits::decimal(
        cfg.name_min,
    ) + "..="@ + digits::decimal(cfg.name_max) + " cooldown="@ + digits::decimal(
        cfg.name_change_cooldown,
    ) + "s auth_max_age="@ + digits::signed_decimal(cfg.auth_max_age_secs) + "s read="@
        + digits::decimal(cfg.read_rate_max) + "req/"@ + digits::decimal(cfg.read_rate_window)
        + "s write="@ + digits::decimal(cfg.write_rate_max) + "req/"@ + digits::decimal(
        cfg.write_rate_window,
    ) + "s reserved_extra="@ + digits::decimal(cfg.extra_reserved.len()) + " pay_mode="@
        + pay_mode_shown(cfg.pay_mode) + " name_price="@ + amount::grin_text(
        cfg.name_price_nanogrin,
    ) + "g write_price="@ + amount::grin_text(cfg.write_price_nanogrin) + "g goblinpay="@ + (
    if cfg.goblinpay_url.len() == 0 {
        "unset"@
    } else {
        cfg.goblinpay_url
    })
}

fn append_number(s: &mut String, label: &str, n: u64)
    ensures
        final(s)@ == old(s)@ + label@ + digits::decimal(n as nat),
{
    s.append(label);
    let shown = u64_text(n);
    s.append(shown.as_str());
}

fn append_both(s: &mut String, label: &str, value: &str)
    ensures
        final(s)@ == old(s)@ + label@ + value@,
{
    s.append(label);
    s.append(value);
}

impl Config {
    /// One line for the startup log. It shows no secret.
    pub fn summary(&self) -> (s: String)
        ensures
            s@ == summary_text(self@),
    {
        let relays = show_list(&self.relays);
        let age = i64_text(self.auth_max_age_secs);
        let name_price = nanogrin_to_grin(self.name_price_nanogrin);
        let write_price = nanogrin_to_grin(self.write_price_nanogrin);
        assert(self@.extra_reserved.len() == self.extra_reserved@.len());
        let mut s = "domain=".to_owned();
        s.append(self.domain.as_str());
        append_both(&mut s, " base_url=", self.base_url.as_str());
        append_both(&mut s, " relays=", relays.as_str());
        append_both(&mut s, " bind=", self.bind_addr.as_str());
        append_both(&mut s, " db=", self.db_path.as_str());
        append_number(&mut s, " name_len=", self.name_min as u64);
        append_number(&mut s, "..=", self.name_max as u64);
        append_number(&mut s, " cooldown=", self.name_change_cooldown);
        append_both(&mut s, "s auth_max_age=", age.as_str());
        append_number(&mut s, "s read=", self.read_rate_max as u64);
        append_number(&mut s, "req/", self.read_rate_window);
        append_number(&mut s, "s write=", self.write_rate_max as u64);
        append_number(&mut s, "req/", self.write_rate_window);
        append_number(&mut s, "s reserved_extra=", self.extra_reserved.len() as u64);
        append_both(&mut s, " pay_mode=", self.pay_mode.shown());
        append_both(&mut s, " name_price=", name_price.as_str());
        append_both(&mut s, "g write_price=", write_price.as_str());
        append_both(
            &mut s,
            "g goblinpay=",
            if self.goblinpay_url.as_str().is_empty() {
                "unset"
            } else {
                self.goblinpay_url.as_str()
            },
        );
        s
    }

    /// A minimal configuration with in-memory state: the free authority of
    /// `floonet.example`.
    pub fn for_test() -> (cfg: Config)
        ensures
            cfg@ == test_config(),
            refusal(cfg@) is None,
    {
        let mut relays: Vec<String> = Vec::new();
        relays.push("wss://floonet.example".to_owned());
        assert(text::views(relays@) =~= seq!["wss://floonet.example"@]);
        let cfg = Config {
            domain: "floonet.example".to_owned(),
            base_url: "https://floonet.example".to_owned(),
            relays,
            bind_addr: "127.0.0.1:0".to_owned(),
            db_path: ":memory:".to_owned(),
            name_change_cooldown: 600,
            auth_max_age_secs: 60,
            name_min: 3,
            name_max: 20,
            read_rate_max: 100_000,
            read_rate_window: 60,
            write_rate_max: 100_000,
            write_rate_window: 3600,
            extra_reserved: domain_reserved("floonet.example"),
            pay_mode: PayMode::Off,
            name_price_nanogrin: 0,
            write_price_nanogrin: 0,
            goblinpay_url: String::new(),
            goblinpay_token: String::new(),
            goblinpay_webhook_secret: None,
            paid_poll_interval: 0,
            allow_transfers: false,
            grin_node_url: None,
            transfer_min_conf: 10,
            transfer_max_offer_ttl: 2592000,
            transfer_claim_grace: 86400,
        };
        proof {
            reveal_strlit("floonet.example");
            reveal_strlit("https://floonet.example");
            reveal_strlit("https://");
            let url = "https://floonet.example"@;
            let domain = "floonet.example"@;
            assert("https://"@ =~= url.take(8));
            assert(url.skip(8) =~= domain);
            text::find_unique(domain, '/', domain.len() as int);
            text::find_unique(domain, ':', domain.len() as int);
            assert(domain.take(domain.len() as int) =~= domain);
        }
        cfg
    }
}

/// The configuration of [`Config::for_test`].
pub open spec fn test_config() -> ConfigView {
    ConfigView {
        domain: "floonet.example"@,
        base_url: "https://floonet.example"@,
        relays: seq!["wss://floonet.example"@],
        bind_addr: "127.0.0.1:0"@,
        db_path: ":memory:"@,
        name_change_cooldown: 600,
        auth_max_age_secs: 60,
        name_min: 3,
        name_max: 20,
        read_rate_max: 100_000,
        read_rate_window: 60,
        write_rate_max: 100_000,
        write_rate_window: 3600,
        extra_reserved: names::own_labels("floonet.example"@),
        pay_mode: PayMode::Off,
        name_price_nanogrin: 0,
        write_price_nanogrin: 0,
        goblinpay_url: Seq::empty(),
        goblinpay_token: Seq::empty(),
        goblinpay_webhook_secret: None,
        paid_poll_interval: 0,
        allow_transfers: false,
        grin_node_url: None,
        transfer_min_conf: 10,
        transfer_max_offer_ttl: 2592000,
        transfer_claim_grace: 86400,
    }
}

// ---------------------------------------------------------------------------
// Laws
// ---------------------------------------------------------------------------

/// No secret reaches the startup log: the line stays the same whatever the
/// GoblinPay token and the webhook secret are.
pub proof fn summary_keeps_secrets(a: ConfigView, b: ConfigView)
    requires
        b == (ConfigView {
            goblinpay_token: b.goblinpay_token,
            goblinpay_webhook_secret: b.goblinpay_webhook_secret,
            ..a
        }),
    ensures
        summary_text(a) == summary_text(b),
{
}

/// A configuration that loads is consistent: its base URL is the `https://`
/// address of its domain, names have room, whatever is sold has a price and a
/// payment server, and transfers have a Grin node.
pub proof fn loaded_is_consistent(env: EnvView)
    requires
        load(env) is Ready,
    ensures
        ({
            let cfg = load(env)->Ready_0;
            &&& "https://"@.is_prefix_of(cfg.base_url)
            &&& bare_host(cfg.base_url.skip("https://"@.len() as int)) == cfg.domain
            &&& cfg.domain.len() > 0
            &&& 0 < cfg.name_min <= cfg.name_max
            &&& cfg.pay_mode != PayMode::Off ==> cfg.goblinpay_url.len() > 0
                && cfg.goblinpay_token.len() > 0
            &&& cfg.pay_mode == PayMode::Name ==> cfg.name_price_nanogrin > 0
            &&& cfg.pay_mode == PayMode::Write ==> cfg.write_price_nanogrin > 0
            &&& cfg.allow_transfers ==> endpoints(cfg).len() > 0
        }),
{
}

/// A file is asked for only where it has not been read, so loading ends after
/// each of the files that the environment names has been read once.
pub proof fn asks_for_unread_files(env: EnvView)
    requires
        load(env) is Read,
    ensures
        first_under(env.files, load(env)->Read_0) is None,
        load(env)->Read_0.len() > 0,
{
}

/// A secret comes from its file where one is named, and the variable that could
/// hold it does not count: the token, and the webhook secret.
pub proof fn files_hold_the_secrets(env: EnvView, cfg: ConfigView)
    requires
        load(env) == LoadView::Ready(cfg),
    ensures
        match file_var(env, "GOBLINPAY_TOKEN_FILE"@) {
            FileVar::Unset => true,
            FileVar::Text(s) => cfg.goblinpay_token == text::trimmed(s),
            _ => false,
        },
        match file_var(env, "GOBLINPAY_WEBHOOK_SECRET_FILE"@) {
            FileVar::Unset => true,
            FileVar::Text(s) => cfg.goblinpay_webhook_secret == if text::trimmed(s).len() > 0 {
                Some(text::trimmed(s))
            } else {
                None
            },
            _ => false,
        },
{
}

/// The first pair under a key decides, whatever stands behind it; where there
/// is none, there is no value.
pub proof fn first_pairs_count<T>(
    before: Seq<(Seq<char>, T)>,
    key: Seq<char>,
    value: T,
    after: Seq<(Seq<char>, T)>,
)
    requires
        forall|i: int| 0 <= i < before.len() ==> (#[trigger] before[i]).0 != key,
    ensures
        first_under(before + seq![(key, value)] + after, key) == Some(value),
        first_under(before, key) is None,
    decreases before.len(),
{
    let all = before + seq![(key, value)] + after;
    if before.len() == 0 {
        assert(all[0] == (key, value));
    } else {
        assert(all[0] == before[0]);
        let rest = before.skip(1);
        assert forall|i: int| 0 <= i < rest.len() implies (#[trigger] rest[i]).0 != key by {
            assert(rest[i] == before[i + 1]);
        }
        assert(all.skip(1) =~= rest + seq![(key, value)] + after);
        first_pairs_count(rest, key, value, after);
    }
}

/// What came of reading the file that a variable names, where it names one that
/// was read.
pub open spec fn named_file(env: EnvView, key: Seq<char>) -> Option<Result<Seq<char>, Seq<char>>> {
    match first_under(env.vars, key) {
        Some(path) => if path.len() > 0 {
            first_under(env.files, path)
        } else {
            None
        },
        None => None,
    }
}

/// Whether a file that a variable names has been read, if it names one.
pub open spec fn is_at_hand(env: EnvView, key: Seq<char>) -> bool {
    match first_under(env.vars, key) {
        Some(path) => path.len() > 0 ==> named_file(env, key) matches Some(Ok(_)),
        None => true,
    }
}

/// Whether a configuration is what the environment says, variable by variable,
/// with the default of each that is not set or does not hold a number that fits.
pub open spec fn says(env: EnvView, cfg: ConfigView) -> bool {
    &&& cfg.domain == match first_under(env.vars, "FLOONET_DOMAIN"@) {
        Some(v) => v,
        None => "floonet.example"@,
    }
    &&& cfg.base_url == match first_under(env.vars, "FLOONET_BASE_URL"@) {
        Some(v) => v,
        None => "https://floonet.example"@,
    }
    &&& cfg.relays == trimmed_items(
        text::pieces(
            match first_under(env.vars, "FLOONET_RELAYS"@) {
                Some(v) => v,
                None => "wss://floonet.example"@,
            },
            ',',
        ),
    )
    &&& cfg.bind_addr == match first_under(env.vars, "FLOONET_NAMES_BIND"@) {
        Some(v) => v,
        None => "127.0.0.1:8191"@,
    }
    &&& cfg.db_path == match first_under(env.vars, "FLOONET_NAMES_DB"@) {
        Some(v) => v,
        None => "/var/lib/floonet-authority/names.db"@,
    }
    &&& cfg.name_change_cooldown == match first_under(env.vars, "FLOONET_NAME_CHANGE_COOLDOWN_SECS"@) {
        Some(v) => match digits::unsigned_value(v, u64::MAX as nat) {
            Some(n) => n,
            None => 600,
        },
        None => 600,
    }
    &&& cfg.auth_max_age_secs == match first_under(env.vars, "FLOONET_AUTH_MAX_AGE_SECS"@) {
        Some(v) => match digits::signed_value(v) {
            Some(n) => n,
            None => 60,
        },
        None => 60,
    }
    &&& cfg.name_min == match first_under(env.vars, "FLOONET_NAME_MIN"@) {
        Some(v) => match digits::unsigned_value(v, usize::MAX as nat) {
            Some(n) => n,
            None => 3,
        },
        None => 3,
    }
    &&& cfg.name_max == match first_under(env.vars, "FLOONET_NAME_MAX"@) {
        Some(v) => match digits::unsigned_value(v, usize::MAX as nat) {
            Some(n) => n,
            None => 20,
        },
        None => 20,
    }
    &&& cfg.read_rate_max == match first_under(env.vars, "FLOONET_READ_RATE_MAX"@) {
        Some(v) => match digits::unsigned_value(v, usize::MAX as nat) {
            Some(n) => n,
            None => 120,
        },
        None => 120,
    }
    &&& cfg.read_rate_window == match first_under(env.vars, "FLOONET_READ_RATE_WINDOW_SECS"@) {
        Some(v) => match digits::unsigned_value(v, u64::MAX as nat) {
            Some(n) => n,
            None => 60,
        },
        None => 60,
    }
    &&& cfg.write_rate_max == match first_under(env.vars, "FLOONET_WRITE_RATE_MAX"@) {
        Some(v) => match digits::unsigned_value(v, usize::MAX as nat) {
            Some(n) => n,
            None => 10,
        },
        None => 10,
    }
    &&& cfg.write_rate_window == match first_under(env.vars, "FLOONET_WRITE_RATE_WINDOW_SECS"@) {
        Some(v) => match digits::unsigned_value(v, u64::MAX as nat) {
            Some(n) => n,
            None => 3600,
        },
        None => 3600,
    }
    &&& cfg.extra_reserved == names::own_labels(cfg.domain) + match named_file(
        env,
        "FLOONET_RESERVED_FILE"@,
    ) {
        Some(Ok(s)) => reserved_lines(text::pieces(s, '\n')),
        _ => Seq::empty(),
    }
    &&& match first_under(env.vars, "FLOONET_PAY_MODE"@) {
        None => cfg.pay_mode == PayMode::Off,
        Some(v) => (v == "off"@ && cfg.pay_mode == PayMode::Off) || (v == "name"@ && cfg.pay_mode
            == PayMode::Name) || (v == "write"@ && cfg.pay_mode == PayMode::Write),
    }
    &&& amount::amount(
        match first_under(env.vars, "FLOONET_NAME_PRICE_GRIN"@) {
            Some(v) => v,
            None => "0"@,
        },
    ) == Ok::<nat, Seq<char>>(cfg.name_price_nanogrin)
    &&& amount::amount(
        match first_under(env.vars, "FLOONET_WRITE_PRICE_GRIN"@) {
            Some(v) => v,
            None => "0"@,
        },
    ) == Ok::<nat, Seq<char>>(cfg.write_price_nanogrin)
    &&& cfg.goblinpay_url == text::without_trailing(
        match first_under(env.vars, "GOBLINPAY_URL"@) {
            Some(v) => v,
            None => ""@,
        },
        '/',
    )
    &&& cfg.goblinpay_token == match named_file(env, "GOBLINPAY_TOKEN_FILE"@) {
        Some(Ok(s)) => text::trimmed(s),
        _ => match first_under(env.vars, "GOBLINPAY_TOKEN"@) {
            Some(v) => v,
            None => ""@,
        },
    }
    &&& cfg.goblinpay_webhook_secret == match named_file(env, "GOBLINPAY_WEBHOOK_SECRET_FILE"@) {
        Some(Ok(s)) => if text::trimmed(s).len() > 0 {
            Some(text::trimmed(s))
        } else {
            None
        },
        _ => match first_under(env.vars, "GOBLINPAY_WEBHOOK_SECRET"@) {
            Some(v) => if v.len() > 0 {
                Some(v)
            } else {
                None
            },
            None => None,
        },
    }
    &&& cfg.paid_poll_interval == match first_under(env.vars, "FLOONET_PAID_POLL_INTERVAL_SECS"@) {
        Some(v) => match digits::unsigned_value(v, u64::MAX as nat) {
            Some(n) => n,
            None => 5,
        },
        None => 5,
    }
    &&& cfg.allow_transfers <==> first_under(env.vars, "FLOONET_TRANSFERS"@) == Some("true"@)
    &&& cfg.grin_node_url == match first_under(env.vars, "FLOONET_GRIN_NODE_URL"@) {
        Some(v) => if v.len() > 0 {
            Some(v)
        } else {
            None
        },
        None => None,
    }
    &&& cfg.transfer_min_conf == match first_under(env.vars, "FLOONET_TRANSFER_MIN_CONF"@) {
        Some(v) => match digits::unsigned_value(v, u64::MAX as nat) {
            Some(n) => n,
            None => 10,
        },
        None => 10,
    }
    &&& cfg.transfer_max_offer_ttl == match first_under(env.vars, "FLOONET_TRANSFER_MAX_OFFER_TTL"@) {
        Some(v) => match digits::signed_value(v) {
            Some(n) => n,
            None => 2592000,
        },
        None => 2592000,
    }
    &&& cfg.transfer_claim_grace == match first_under(env.vars, "FLOONET_TRANSFER_CLAIM_GRACE"@) {
        Some(v) => match digits::signed_value(v) {
            Some(n) => n,
            None => 86400,
        },
        None => 86400,
    }
}

/// Whether a configuration can be run: it has a domain, which is the host of its
/// `https://` address; names have room; what is sold has a price, a payment
/// server and a token for it; and transfers have a node.
pub open spec fn can_run(cfg: ConfigView) -> bool {
    let host = cfg.base_url.skip(8);
    let n = cfg.domain.len() as int;
    &&& n > 0
    &&& cfg.base_url.len() >= 8 + n
    &&& cfg.base_url.take(8) == seq!['h', 't', 't', 'p', 's', ':', '/', '/']
    &&& host.take(n) == cfg.domain
    &&& !cfg.domain.contains('/') && !cfg.domain.contains(':')
    &&& host.len() > n ==> host[n] == '/' || host[n] == ':'
    &&& 1 <= cfg.name_min <= cfg.name_max
    &&& cfg.pay_mode != PayMode::Off ==> cfg.goblinpay_url.len() > 0 && cfg.goblinpay_token.len() > 0
    &&& cfg.pay_mode == PayMode::Name ==> cfg.name_price_nanogrin > 0
    &&& cfg.pay_mode == PayMode::Write ==> cfg.write_price_nanogrin > 0
    &&& cfg.allow_transfers ==> (cfg.grin_node_url matches Some(list) && words(list).len() > 0)
}

/// The host of an address is what stands before the first slash or colon.
pub proof fn hosts_end_at_a_mark(host: Seq<char>, domain: Seq<char>)
    ensures
        bare_host(host) == domain <==> {
            &&& domain.len() <= host.len()
            &&& host.take(domain.len() as int) == domain
            &&& !domain.contains('/') && !domain.contains(':')
            &&& host.len() > domain.len() ==> host[domain.len() as int] == '/' || host[domain.len() as int]
                == ':'
        },
{
    let head = text::before(host, '/');
    let bare = bare_host(host);
    text::find_is_first(host, '/');
    text::find_is_first(head, ':');
    let a = text::find(host, '/');
    let b = text::find(head, ':');
    assert(bare =~= host.take(b));
    assert(!bare.contains('/')) by {
        if bare.contains('/') {
            let i = choose|i: int| 0 <= i < bare.len() && bare[i] == '/';
            assert(host[i] == '/');
        }
    }
    assert(!bare.contains(':')) by {
        if bare.contains(':') {
            let i = choose|i: int| 0 <= i < bare.len() && bare[i] == ':';
            assert(head[i] == ':');
        }
    }
    if b < head.len() {
        assert(head[b] == ':');
        assert(host[b] == ':');
    } else if a < host.len() {
        assert(host[b] == '/');
    }
    let n = domain.len() as int;
    if n <= host.len() && host.take(n) == domain && !domain.contains('/') && !domain.contains(':') && (
    host.len() > n ==> host[n] == '/' || host[n] == ':') {
        assert forall|i: int| 0 <= i < n implies host[i] != '/' && host[i] != ':' by {
            assert(domain[i] == host[i]);
            assert(domain.contains(domain[i]));
        }
        if b < n {
            assert(false);
        }
        if n < b {
            assert(host[n] == head[n]);
            assert(false);
        }
        assert(bare =~= domain);
    }
}

/// A configuration is refused exactly where it cannot be run.
pub proof fn refused_where_it_cannot_run(cfg: ConfigView)
    ensures
        refusal(cfg) is None <==> can_run(cfg),
{
    reveal_strlit("https://");
    let scheme = seq!['h', 't', 't', 'p', 's', ':', '/', '/'];
    assert("https://"@ =~= scheme);
    let host = cfg.base_url.skip(8);
    if cfg.base_url.len() >= 8 {
        assert(scheme.is_prefix_of(cfg.base_url) <==> cfg.base_url.take(8) == scheme);
    }
    hosts_end_at_a_mark(host, cfg.domain);
}

/// A configuration that loads says what the environment says, variable by
/// variable, and can be run.
pub proof fn loads_what_the_environment_says(env: EnvView, cfg: ConfigView)
    requires
        load(env) == LoadView::Ready(cfg),
    ensures
        says(env, cfg),
        can_run(cfg),
        is_at_hand(env, "FLOONET_RESERVED_FILE"@),
        is_at_hand(env, "GOBLINPAY_TOKEN_FILE"@),
        is_at_hand(env, "GOBLINPAY_WEBHOOK_SECRET_FILE"@),
{
    refused_where_it_cannot_run(cfg);
}

/// Where the files that the environment names are at hand, and what it says is a
/// configuration, that one loads if it can be run and is refused if it cannot.
pub proof fn what_the_environment_says_loads(env: EnvView, cfg: ConfigView)
    requires
        says(env, cfg),
        is_at_hand(env, "FLOONET_RESERVED_FILE"@),
        is_at_hand(env, "GOBLINPAY_TOKEN_FILE"@),
        is_at_hand(env, "GOBLINPAY_WEBHOOK_SECRET_FILE"@),
    ensures
        can_run(cfg) ==> load(env) == LoadView::Ready(cfg),
        !can_run(cfg) ==> load(env) is Refused,
{
    refused_where_it_cannot_run(cfg);
    reveal_strlit("off");
    reveal_strlit("name");
    reveal_strlit("write");
    assert("off"@.len() == 3 && "name"@.len() == 4 && "write"@.len() == 5);
    let d = described(
        env,
        file_var(env, "FLOONET_RESERVED_FILE"@),
        file_var(env, "GOBLINPAY_TOKEN_FILE"@),
        file_var(env, "GOBLINPAY_WEBHOOK_SECRET_FILE"@),
        cfg.pay_mode,
        cfg.name_price_nanogrin,
        cfg.write_price_nanogrin,
    );
    assert(d == cfg);
}

/// The pay modes are `off`, `name` and `write`, and no others.
pub proof fn pay_modes_have_their_word(s: Seq<char>)
    ensures
        pay_mode_of("off"@) == Ok::<PayMode, Seq<char>>(PayMode::Off),
        pay_mode_of("name"@) == Ok::<PayMode, Seq<char>>(PayMode::Name),
        pay_mode_of("write"@) == Ok::<PayMode, Seq<char>>(PayMode::Write),
        s != "off"@ && s != "name"@ && s != "write"@ ==> pay_mode_of(s) == Err::<PayMode, Seq<char>>(
            "FLOONET_PAY_MODE must be off, name or write (got `"@ + s + "`)"@,
        ),
{
    reveal_strlit("off");
    reveal_strlit("name");
    reveal_strlit("write");
    assert("off"@.len() == 3 && "name"@.len() == 4 && "write"@.len() == 5);
}

/// Node addresses are the words of their list: a comma or white space ends one,
/// however many there are, and what holds neither is one word.
pub proof fn words_are_separated(a: Seq<char>, c: char, b: Seq<char>, w: Seq<char>)
    requires
        c == ',' || text::is_space(c),
        w.len() > 0,
        forall|i: int| 0 <= i < w.len() ==> #[trigger] w[i] != ',' && !text::is_space(w[i]),
    ensures
        words(Seq::<char>::empty()) == Seq::<Seq<char>>::empty(),
        words(w) == seq![w],
        words(a + seq![c] + b) == words(a) + words(b),
{
    let none = Seq::<Seq<char>>::empty();
    word_stays_open(w);
    assert(none.push(w) =~= seq![w]);
    runs_after_a_separator(a, c, b);
    let (closed, open) = runs(b);
    if open.len() > 0 {
        assert((words(a) + closed).push(open) =~= words(a) + closed.push(open));
    }
}

proof fn word_stays_open(w: Seq<char>)
    requires
        forall|i: int| 0 <= i < w.len() ==> #[trigger] w[i] != ',' && !text::is_space(w[i]),
    ensures
        runs(w) == (Seq::<Seq<char>>::empty(), w),
    decreases w.len(),
{
    if w.len() > 0 {
        let rest = w.drop_last();
        assert forall|i: int| 0 <= i < rest.len() implies #[trigger] rest[i] != ','
            && !text::is_space(rest[i]) by {
            assert(rest[i] == w[i]);
        }
        word_stays_open(rest);
        assert(w[w.len() - 1] != ',');
        assert(rest.push(w.last()) =~= w);
    } else {
        assert(w =~= Seq::<char>::empty());
    }
}

proof fn runs_after_a_separator(a: Seq<char>, c: char, b: Seq<char>)
    requires
        is_separator(c),
    ensures
        runs(a + seq![c] + b) == (words(a) + runs(b).0, runs(b).1),
    decreases b.len(),
{
    let s = a + seq![c] + b;
    if b.len() == 0 {
        assert(s =~= a.push(c));
        assert(a.push(c).drop_last() =~= a);
        let (closed, open) = runs(a);
        assert(open.len() == 0 ==> open =~= Seq::<char>::empty());
        assert(words(a) + Seq::<Seq<char>>::empty() =~= words(a));
        assert(runs(b).0 =~= Seq::<Seq<char>>::empty());
    } else {
        let rest = b.drop_last();
        assert(s.drop_last() =~= a + seq![c] + rest);
        assert(s.last() == b.last());
        runs_after_a_separator(a, c, rest);
        let (closed, open) = runs(rest);
        assert(words(a) + closed.push(open) =~= (words(a) + closed).push(open));
    }
}

/// Relays and reserved names are taken line by line: each item trimmed, the
/// empty ones and, for names, the comments left out, and names in lower case.
pub proof fn items_are_taken_one_by_one(a: Seq<Seq<char>>, x: Seq<char>)
    ensures
        trimmed_items(Seq::<Seq<char>>::empty()) == Seq::<Seq<char>>::empty(),
        reserved_lines(Seq::<Seq<char>>::empty()) == Seq::<Seq<char>>::empty(),
        text::trimmed(x).len() == 0 ==> trimmed_items(a.push(x)) == trimmed_items(a),
        text::trimmed(x).len() > 0 ==> trimmed_items(a.push(x)) == trimmed_items(a).push(
            text::trimmed(x),
        ),
        text::trimmed(x).len() == 0 || text::trimmed(x)[0] == '#' ==> reserved_lines(a.push(x))
            == reserved_lines(a),
        text::trimmed(x).len() > 0 && text::trimmed(x)[0] != '#' ==> reserved_lines(a.push(x))
            == reserved_lines(a).push(text::lower(text::trimmed(x))),
{
    assert(a.push(x).drop_last() =~= a);
}

/// A configuration and an environment are seen with the fields that they have.
pub proof fn config_views_show_the_fields(cfg: Config, env: Env)
    ensures
        cfg@.domain == cfg.domain@ && cfg@.base_url == cfg.base_url@,
        cfg@.relays == text::views(cfg.relays@) && cfg@.bind_addr == cfg.bind_addr@,
        cfg@.db_path == cfg.db_path@ && cfg@.name_change_cooldown == cfg.name_change_cooldown,
        cfg@.auth_max_age_secs == cfg.auth_max_age_secs,
        cfg@.name_min == cfg.name_min && cfg@.name_max == cfg.name_max,
        cfg@.read_rate_max == cfg.read_rate_max && cfg@.read_rate_window == cfg.read_rate_window,
        cfg@.write_rate_max == cfg.write_rate_max && cfg@.write_rate_window == cfg.write_rate_window,
        cfg@.extra_reserved == text::views(cfg.extra_reserved@),
        cfg@.pay_mode == cfg.pay_mode,
        cfg@.name_price_nanogrin == cfg.name_price_nanogrin,
        cfg@.write_price_nanogrin == cfg.write_price_nanogrin,
        cfg@.goblinpay_url == cfg.goblinpay_url@ && cfg@.goblinpay_token == cfg.goblinpay_token@,
        cfg@.goblinpay_webhook_secret == text::opt_view(cfg.goblinpay_webhook_secret),
        cfg@.paid_poll_interval == cfg.paid_poll_interval,
        cfg@.allow_transfers == cfg.allow_transfers,
        cfg@.grin_node_url == text::opt_view(cfg.grin_node_url),
        cfg@.transfer_min_conf == cfg.transfer_min_conf,
        cfg@.transfer_max_offer_ttl == cfg.transfer_max_offer_ttl,
        cfg@.transfer_claim_grace == cfg.transfer_claim_grace,
        env@.vars.len() == env.vars@.len() && env@.files.len() == env.files@.len(),
        forall|i: int|
            0 <= i < env.vars@.len() ==> #[trigger] env@.vars[i] == (env.vars@[i].0@, env.vars@[i].1@),
        forall|i: int|
            0 <= i < env.files@.len() ==> (#[trigger] env@.files[i]).0 == env.files@[i].0@,
        forall|i: int|
            0 <= i < env.files@.len() ==> match (env.files@[i].1, (#[trigger] env@.files[i]).1) {
                (Ok(s), Ok(t)) => s@ == t,
                (Err(s), Err(t)) => s@ == t,
                _ => false,
            },
{
}

/// The nodes are tried in the order in which their list names them.
pub proof fn nodes_are_the_words_of_their_list(cfg: ConfigView)
    ensures
        cfg.grin_node_url matches Some(list) ==> endpoints(cfg) == words(list),
        cfg.grin_node_url is None ==> endpoints(cfg) == Seq::<Seq<char>>::empty(),
{
}

/// A variable counts as it is set; where it is not, or does not hold what it
/// should, its default does.
pub proof fn variables_have_defaults(env: EnvView, key: Seq<char>, default: Seq<char>, n: nat, m: int)
    ensures
        match first_under(env.vars, key) {
            None => {
                &&& var(env, key) is None
                &&& text_var(env, key, default) == default
                &&& filled_var(env, key) is None
                &&& !flag_var(env, key)
                &&& number_var(env, key, u64::MAX as nat, n) == n
                &&& signed_var(env, key, m) == m
            },
            Some(v) => {
                &&& var(env, key) == Some(v)
                &&& text_var(env, key, default) == v
                &&& v.len() > 0 ==> filled_var(env, key) == Some(v)
                &&& v.len() == 0 ==> filled_var(env, key) is None
                &&& flag_var(env, key) <==> v == "true"@
                &&& number_var(env, key, u64::MAX as nat, n) == match digits::unsigned_value(
                    v,
                    u64::MAX as nat,
                ) {
                    Some(k) => k,
                    None => n,
                }
                &&& signed_var(env, key, m) == match digits::signed_value(v) {
                    Some(k) => k,
                    None => m,
                }
            },
        },
{
}

/// A file that a variable names is asked for, and one that cannot be read is
/// named with the system's complaint.
pub proof fn named_files_are_asked_for(env: EnvView, path: Seq<char>)
    requires
        first_under(env.vars, "FLOONET_RESERVED_FILE"@) == Some(path),
        path.len() > 0,
    ensures
        match first_under(env.files, path) {
            None => load(env) == LoadView::Read(path),
            Some(Err(e)) => load(env) == LoadView::Refused(
                "FLOONET_RESERVED_FILE"@ + " `"@ + path + "` unreadable: "@ + e,
            ),
            Some(Ok(_)) => true,
        },
{
}

/// The token's file is asked for once the rest of what decides is in order.
pub proof fn the_token_is_asked_for(env: EnvView, path: Seq<char>)
    requires
        is_at_hand(env, "FLOONET_RESERVED_FILE"@),
        pay_mode_of(text_var(env, "FLOONET_PAY_MODE"@, "off"@)) is Ok,
        amount::amount(text_var(env, "FLOONET_NAME_PRICE_GRIN"@, "0"@)) is Ok,
        amount::amount(text_var(env, "FLOONET_WRITE_PRICE_GRIN"@, "0"@)) is Ok,
        first_under(env.vars, "GOBLINPAY_TOKEN_FILE"@) == Some(path),
        path.len() > 0,
    ensures
        match first_under(env.files, path) {
            None => load(env) == LoadView::Read(path),
            Some(Err(e)) => load(env) == LoadView::Refused(
                "GOBLINPAY_TOKEN_FILE"@ + " `"@ + path + "` unreadable: "@ + e,
            ),
            Some(Ok(_)) => true,
        },
{
}

/// Why a configuration is refused is said of the first thing that is wrong.
pub proof fn refusals_say_why(cfg: ConfigView)
    ensures
        cfg.domain.len() == 0 ==> refusal(cfg) == Some("FLOONET_DOMAIN must not be empty"@),
        cfg.domain.len() > 0 && !"https://"@.is_prefix_of(cfg.base_url) ==> refusal(cfg) == Some(
            "FLOONET_BASE_URL must start with https:// (got `"@ + cfg.base_url + "`)"@,
        ),
        cfg.domain.len() > 0 && cfg.base_url == "https://"@ ==> refusal(cfg) == Some(
            "FLOONET_BASE_URL has no host"@,
        ),
        ({
            let host = cfg.base_url.skip("https://"@.len() as int);
            let addressed = cfg.domain.len() > 0 && "https://"@.is_prefix_of(cfg.base_url)
                && host.len() > 0;
            let named = addressed && bare_host(host) == cfg.domain;
            let roomy = named && 0 < cfg.name_min <= cfg.name_max;
            let sells = cfg.pay_mode != PayMode::Off;
            let served = !sells || cfg.goblinpay_url.len() > 0;
            let held = !sells || cfg.goblinpay_token.len() > 0;
            let unpriced = (cfg.pay_mode == PayMode::Name && cfg.name_price_nanogrin == 0) || (
            cfg.pay_mode == PayMode::Write && cfg.write_price_nanogrin == 0);
            &&& addressed && !named ==> refusal(cfg) == Some(
                "FLOONET_BASE_URL host `"@ + bare_host(host)
                    + "` does not match FLOONET_DOMAIN `"@ + cfg.domain + "`"@,
            )
            &&& named && !roomy ==> refusal(cfg) == Some(
                "invalid name length bounds: min="@ + digits::decimal(cfg.name_min) + " max="@
                    + digits::decimal(cfg.name_max),
            )
            &&& roomy && !served ==> refusal(cfg) == Some(
                "FLOONET_PAY_MODE is on but GOBLINPAY_URL is not set"@,
            )
            &&& roomy && served && !held ==> refusal(cfg) == Some(
                "FLOONET_PAY_MODE is on but no GoblinPay token is set (GOBLINPAY_TOKEN or GOBLINPAY_TOKEN_FILE)"@,
            )
            &&& roomy && served && held && cfg.pay_mode == PayMode::Name && unpriced ==> refusal(cfg)
                == Some("FLOONET_PAY_MODE=name needs FLOONET_NAME_PRICE_GRIN > 0"@)
            &&& roomy && served && held && cfg.pay_mode == PayMode::Write && unpriced ==> refusal(cfg)
                == Some("FLOONET_PAY_MODE=write needs FLOONET_WRITE_PRICE_GRIN > 0"@)
            &&& roomy && served && held && !unpriced && cfg.allow_transfers && (cfg.grin_node_url is None
                || words(cfg.grin_node_url->0).len() == 0) ==> refusal(cfg) == Some(
                "FLOONET_TRANSFERS is on but FLOONET_GRIN_NODE_URL is not set"@,
            )
        }),
{
    text::prefixes_come_off("https://"@, Seq::empty(), cfg.base_url);
    assert("https://"@ + Seq::empty() =~= "https://"@);
}

/// The startup log shows each setting behind its label, in this order.
pub proof fn the_log_shows_the_settings(cfg: ConfigView)
    ensures
        summary_text(cfg) == shown(
            seq![
                ("domain="@, cfg.domain),
                (" base_url="@, cfg.base_url),
                (" relays="@, list_shown(cfg.relays)),
                (" bind="@, cfg.bind_addr),
                (" db="@, cfg.db_path),
                (" name_len="@, digits::decimal(cfg.name_min)),
                ("..="@, digits::decimal(cfg.name_max)),
                (" cooldown="@, digits::decimal(cfg.name_change_cooldown)),
                ("s auth_max_age="@, digits::signed_decimal(cfg.auth_max_age_secs)),
                ("s read="@, digits::decimal(cfg.read_rate_max)),
                ("req/"@, digits::decimal(cfg.read_rate_window)),
                ("s write="@, digits::decimal(cfg.write_rate_max)),
                ("req/"@, digits::decimal(cfg.write_rate_window)),
                ("s reserved_extra="@, digits::decimal(cfg.extra_reserved.len())),
                (" pay_mode="@, if cfg.pay_mode == PayMode::Off { "Off"@ } else if cfg.pay_mode
                    == PayMode::Name { "Name"@ } else { "Write"@ }),
                (" name_price="@, amount::grin_text(cfg.name_price_nanogrin)),
                ("g write_price="@, amount::grin_text(cfg.write_price_nanogrin)),
                ("g goblinpay="@, if cfg.goblinpay_url.len() == 0 { "unset"@ } else {
                    cfg.goblinpay_url
                }),
            ],
        ),
{
    let list = seq![
        ("domain="@, cfg.domain),
        (" base_url="@, cfg.base_url),
        (" relays="@, list_shown(cfg.relays)),
        (" bind="@, cfg.bind_addr),
        (" db="@, cfg.db_path),
        (" name_len="@, digits::decimal(cfg.name_min)),
        ("..="@, digits::decimal(cfg.name_max)),
        (" cooldown="@, digits::decimal(cfg.name_change_cooldown)),
        ("s auth_max_age="@, digits::signed_decimal(cfg.auth_max_age_secs)),
        ("s read="@, digits::decimal(cfg.read_rate_max)),
        ("req/"@, digits::decimal(cfg.read_rate_window)),
        ("s write="@, digits::decimal(cfg.write_rate_max)),
        ("req/"@, digits::decimal(cfg.write_rate_window)),
        ("s reserved_extra="@, digits::decimal(cfg.extra_reserved.len())),
        (" pay_mode="@, if cfg.pay_mode == PayMode::Off { "Off"@ } else if cfg.pay_mode
            == PayMode::Name { "Name"@ } else { "Write"@ }),
        (" name_price="@, amount::grin_text(cfg.name_price_nanogrin)),
        ("g write_price="@, amount::grin_text(cfg.write_price_nanogrin)),
        ("g goblinpay="@, if cfg.goblinpay_url.len() == 0 { "unset"@ } else {
            cfg.goblinpay_url
        }),
    ];
    shown_steps(list, 18);
    assert(list.take(18) =~= list);
    assert(Seq::<char>::empty() + "domain="@ =~= "domain="@);
}

/// Labels and values, one behind the other.
pub open spec fn shown(list: Seq<(Seq<char>, Seq<char>)>) -> Seq<char>
    decreases list.len(),
{
    if list.len() == 0 {
        Seq::empty()
    } else {
        shown(list.drop_last()) + list.last().0 + list.last().1
    }
}

proof fn shown_steps(list: Seq<(Seq<char>, Seq<char>)>, n: int)
    requires
        0 <= n <= list.len(),
    ensures
        shown(list.take(0)) == Seq::<char>::empty(),
        forall|i: int|
            0 < i <= n ==> #[trigger] shown(list.take(i)) == shown(list.take(i - 1)) + list[i - 1].0
                + list[i - 1].1,
    decreases n,
{
    if n > 0 {
        shown_steps(list, n - 1);
        assert(list.take(n).drop_last() =~= list.take(n - 1));
        assert(list.take(n).last() == list[n - 1]);
    }
}

} // verus!
