//! The first-run setup: env files, and the questions that fill one.
//!
//! The authority is configured by environment variables. Whoever runs it by
//! hand with nothing configured, on a terminal, is asked for the essentials;
//! the answers become an env file, which is loaded like any other. The API
//! token is a secret: it is asked for without showing it, and goes to a file of
//! its own that the env file names. Whoever has set `FLOONET_DOMAIN` is never
//! asked.

use crate::config;
use crate::config::{Env, EnvView};
use crate::text;
use crate::text::{chars_of, list_contains, same, split, split_once, string_of, strip_prefix, to_lower, trim};
use vstd::prelude::*;
use vstd::string::*;

verus! {

/// The env file of a system-wide installation.
pub const DEFAULT_ENV_FILE: &'static str = "/etc/floonet-authority.env";

// ---------------------------------------------------------------------------
// Which file, and whether to ask
// ---------------------------------------------------------------------------

/// The env files that are tried at startup, in order: the one that
/// `FLOONET_ENV_FILE` names, the system's, and the working directory's.
pub open spec fn candidates(env: EnvView) -> Seq<Seq<char>> {
    let usual = seq!["/etc/floonet-authority.env"@, ".env"@];
    match config::filled_var(env, "FLOONET_ENV_FILE"@) {
        Some(path) => seq![path] + usual,
        None => usual,
    }
}

/// The env files that are tried at startup, in order.
pub fn env_file_candidates(env: &Env) -> (list: Vec<String>)
    ensures
        text::views(list@) == candidates(env@),
{
    let mut list: Vec<String> = Vec::new();
    match env.filled("FLOONET_ENV_FILE") {
        Some(path) => {
            list.push(path);
        },
        None => {},
    }
    list.push(DEFAULT_ENV_FILE.to_owned());
    list.push(".env".to_owned());
    assert(text::views(list@) =~= candidates(env@));
    list
}

/// Where the search for an env file stands.
pub enum Search<S> {
    /// See whether this file exists.
    Probe(S),
    /// Load this file.
    Load(S),
    /// There is none.
    Nothing,
}

/// The search over character sequences.
pub open spec fn search_view(s: Search<String>) -> Search<Seq<char>> {
    match s {
        Search::Probe(p) => Search::Probe(p@),
        Search::Load(p) => Search::Load(p@),
        Search::Nothing => Search::Nothing,
    }
}

/// The first of the files that exists, where `exist` says so of those that were
/// looked for.
pub open spec fn search(files: Seq<Seq<char>>, exist: Seq<bool>) -> Search<Seq<char>>
    decreases files.len(),
{
    if files.len() == 0 {
        Search::Nothing
    } else if exist.len() == 0 {
        Search::Probe(files[0])
    } else if exist[0] {
        Search::Load(files[0])
    } else {
        search(files.skip(1), exist.skip(1))
    }
}

/// Which env file to load at startup: the first candidate that exists.
pub fn load_first_existing(files: &Vec<String>, exist: &Vec<bool>) -> (s: Search<String>)
    ensures
        search_view(s) == search(text::views(files@), exist@),
{
    let ghost all = text::views(files@);
    let mut i: usize = 0;
    assert(all.skip(0) =~= all);
    assert(exist@.skip(0) =~= exist@);
    while i < files.len()
        invariant
            i <= files.len(),
            i <= exist.len(),
            all == text::views(files@),
            search(all, exist@) == search(all.skip(i as int), exist@.skip(i as int)),
        decreases files.len() - i,
    {
        assert(all.skip(i as int)[0] == files@[i as int]@);
        if i == exist.len() {
            return Search::Probe(files[i].clone());
        }
        assert(exist@.skip(i as int)[0] == exist@[i as int]);
        if exist[i] {
            return Search::Load(files[i].clone());
        }
        assert(all.skip(i as int).skip(1) =~= all.skip(i + 1));
        assert(exist@.skip(i as int).skip(1) =~= exist@.skip(i + 1));
        i = i + 1;
    }
    Search::Nothing
}

/// Whether the authority is configured: `FLOONET_DOMAIN`, which every real
/// deployment sets, holds something.
pub fn config_present(env: &Env) -> (present: bool)
    ensures
        present == config::filled_var(env@, "FLOONET_DOMAIN"@) is Some,
{
    env.filled("FLOONET_DOMAIN").is_some()
}

/// The questions are asked only where nothing is configured and somebody sits
/// at a terminal.
pub fn decide_wizard(config_present: bool, interactive: bool) -> (ask: bool)
    ensures
        ask == (!config_present && interactive),
        config_present ==> !ask,
        !interactive ==> !ask,
{
    !config_present && interactive
}

/// What the program does when it is started.
#[derive(Debug, Clone, Copy, PartialEq, Eq, Structural)]
pub enum Start {
    /// Serve.
    Serve,
    /// Ask the questions, then serve.
    Ask,
    /// Refuse to ask: there is a configuration already.
    Configured,
}

/// What the program does when it is started with these arguments. `setup` asks
/// the questions outright, and over an existing configuration with
/// `--reconfigure`; anything else leaves it to the circumstances.
pub open spec fn start_of(args: Seq<Seq<char>>, config_present: bool, interactive: bool) -> Start {
    if args.len() > 0 && args[0] == "setup"@ {
        if config_present && !args.contains("--reconfigure"@) {
            Start::Configured
        } else {
            Start::Ask
        }
    } else if !config_present && interactive {
        Start::Ask
    } else {
        Start::Serve
    }
}

/// What the program does when it is started with these arguments.
pub fn decide_start(args: &Vec<String>, config_present: bool, interactive: bool) -> (start: Start)
    ensures
        start == start_of(text::views(args@), config_present, interactive),
{
    if args.len() > 0 && same(args[0].as_str(), "setup") {
        if config_present && !list_contains(args, "--reconfigure") {
            Start::Configured
        } else {
            Start::Ask
        }
    } else if decide_wizard(config_present, interactive) {
        Start::Ask
    } else {
        Start::Serve
    }
}

/// Where the answers are written: the file that `FLOONET_ENV_FILE` names, the
/// system's where its directory can be written, else the working directory's.
/// `None` while it is not known whether that directory can be written.
pub open spec fn target(env: EnvView, etc_writable: Option<bool>) -> Option<Seq<char>> {
    match config::filled_var(env, "FLOONET_ENV_FILE"@) {
        Some(path) => Some(path),
        None => match etc_writable {
            None => None,
            Some(true) => Some("/etc/floonet-authority.env"@),
            Some(false) => Some(".env"@),
        },
    }
}

/// Where the answers are written: `None` while it is not known whether the
/// directory of [`DEFAULT_ENV_FILE`] can be written.
pub fn wizard_target(env: &Env, etc_writable: Option<bool>) -> (path: Option<String>)
    ensures
        text::opt_view(path) == target(env@, etc_writable),
{
    match env.filled("FLOONET_ENV_FILE") {
        Some(path) => Some(path),
        None => match etc_writable {
            None => None,
            Some(writable) => {
                if writable {
                    Some(DEFAULT_ENV_FILE.to_owned())
                } else {
                    Some(".env".to_owned())
                }
            },
        },
    }
}

// ---------------------------------------------------------------------------
// Env files
// ---------------------------------------------------------------------------

/// A value without one layer of matching quotes around it.
pub open spec fn unquoted(v: Seq<char>) -> Seq<char> {
    if v.len() >= 2 && (v[0] == '"' && v.last() == '"' || v[0] == '\'' && v.last() == '\'') {
        v.subrange(1, v.len() - 1)
    } else {
        v
    }
}

/// What a line of an env file sets, if it sets anything: `KEY=value`, with an
/// `export ` before it or quotes around the value.
pub open spec fn setting(raw: Seq<char>) -> Option<(Seq<char>, Seq<char>)> {
    let line = text::trimmed(raw);
    if line.len() == 0 || line[0] == '#' {
        None
    } else {
        let rest = match text::without_prefix(line, "export "@) {
            Some(r) => r,
            None => line,
        };
        match text::split_at_first(rest, '=') {
            None => None,
            Some((key, value)) => if text::trimmed(key).len() == 0 {
                None
            } else {
                Some((text::trimmed(key), unquoted(text::trimmed(value))))
            },
        }
    }
}

/// What the lines of an env file set, in order.
pub open spec fn settings_of(lines: Seq<Seq<char>>) -> Seq<(Seq<char>, Seq<char>)>
    decreases lines.len(),
{
    if lines.len() == 0 {
        Seq::empty()
    } else {
        let rest = settings_of(lines.drop_last());
        match setting(lines.last()) {
            Some(pair) => rest.push(pair),
            None => rest,
        }
    }
}

/// What an env file sets, in order.
pub open spec fn file_settings(file: Seq<char>) -> Seq<(Seq<char>, Seq<char>)> {
    settings_of(text::pieces(file, '\n'))
}

fn unquote(v: &str) -> (r: String)
    ensures
        r@ == unquoted(v@),
{
    let c = chars_of(v);
    if c.len() >= 2 && ((c[0] == '"' && c[c.len() - 1] == '"') || (c[0] == '\'' && c[c.len() - 1]
        == '\'')) {
        string_of(vstd::slice::slice_subrange(c.as_slice(), 1, c.len() - 1))
    } else {
        v.to_owned()
    }
}

fn read_line(raw: &str) -> (r: Option<(String, String)>)
    ensures
        match (r, setting(raw@)) {
            (Some((k, v)), Some((x, y))) => k@ == x && v@ == y,
            (None, None) => true,
            _ => false,
        },
{
    let line = trim(raw);
    if line.is_empty() || line.get_char(0) == '#' {
        return None;
    }
    let line = match strip_prefix(line, "export ") {
        Some(rest) => rest,
        None => line,
    };
    match split_once(line, '=') {
        Some((key, value)) => {
            let key = trim(key);
            if key.is_empty() {
                return None;
            }
            Some((key.to_owned(), unquote(trim(value))))
        },
        None => None,
    }
}

/// The settings in the text of an env file, in order. Blank lines and `#`
/// comments are passed over, an `export ` before a setting is allowed, and one
/// layer of matching quotes around a value is taken off.
pub fn parse_env_file(file: &str) -> (out: Vec<(String, String)>)
    ensures
        config::pair_views(out@) == file_settings(file@),
{
    let lines = split(file, '\n');
    let ghost all = text::views(lines@);
    let mut out: Vec<(String, String)> = Vec::new();
    let mut i: usize = 0;
    assert(config::pair_views(out@) =~= Seq::<(Seq<char>, Seq<char>)>::empty());
    while i < lines.len()
        invariant
            i <= lines.len(),
            all == text::views(lines@),
            config::pair_views(out@) == settings_of(all.take(i as int)),
        decreases lines.len() - i,
    {
        let pair = read_line(lines[i].as_str());
        i = i + 1;
        assert(all.take(i as int).drop_last() =~= all.take(i - 1));
        let ghost kept = out@;
        match pair {
            Some(p) => {
                out.push(p);
                assert(config::pair_views(out@) =~= config::pair_views(kept).push((p.0@, p.1@)));
            },
            None => {},
        }
    }
    assert(all.take(all.len() as int) =~= all);
    out
}

/// The settings that take effect where `vars` are set already: a variable that
/// is set keeps its value, and the first setting of a variable counts.
pub open spec fn taken(
    vars: Seq<(Seq<char>, Seq<char>)>,
    settings: Seq<(Seq<char>, Seq<char>)>,
) -> Seq<(Seq<char>, Seq<char>)>
    decreases settings.len(),
{
    if settings.len() == 0 {
        Seq::empty()
    } else {
        let rest = taken(vars, settings.drop_last());
        let key = settings.last().0;
        if config::first_under(vars, key) is Some || config::first_under(rest, key) is Some {
            rest
        } else {
            rest.push(settings.last())
        }
    }
}

/// The variables that loading an env file sets: those that are not set
/// already. How many there are is the length of the list.
pub fn load_env_file(env: &Env, file: &str) -> (set: Vec<(String, String)>)
    ensures
        config::pair_views(set@) == taken(env@.vars, file_settings(file@)),
{
    let found = parse_env_file(file);
    let ghost all = config::pair_views(found@);
    let mut set = Env { vars: Vec::new(), files: Vec::new() };
    let mut i: usize = 0;
    assert(set@.vars =~= Seq::<(Seq<char>, Seq<char>)>::empty());
    while i < found.len()
        invariant
            i <= found.len(),
            all == config::pair_views(found@),
            set@.vars == taken(env@.vars, all.take(i as int)),
        decreases found.len() - i,
    {
        let key = &found[i].0;
        let known = env.var(key.as_str()).is_some() || set.var(key.as_str()).is_some();
        let ghost kept = set.vars@;
        assert(all.take(i + 1).drop_last() =~= all.take(i as int));
        assert(all.take(i + 1).last() == (found@[i as int].0@, found@[i as int].1@));
        if !known {
            set.vars.push((found[i].0.clone(), found[i].1.clone()));
            assert(set@.vars =~= config::pair_views(kept).push(
                (found@[i as int].0@, found@[i as int].1@),
            ));
        }
        i = i + 1;
    }
    assert(all.take(all.len() as int) =~= all);
    set.vars
}

// ---------------------------------------------------------------------------
// Answers
// ---------------------------------------------------------------------------

/// What the setup asks for.
#[derive(Debug, Clone)]
pub struct Answers {
    pub domain: String,
    pub bind_addr: String,
    pub data_dir: String,
    pub pay_mode: String,
    pub price_grin: String,
    pub goblinpay_url: String,
    pub goblinpay_token: String,
    pub transfers: bool,
    pub grin_node_url: String,
}

/// What [`Answers`] hold.
pub struct AnswersView {
    pub domain: Seq<char>,
    pub bind_addr: Seq<char>,
    pub data_dir: Seq<char>,
    pub pay_mode: Seq<char>,
    pub price_grin: Seq<char>,
    pub goblinpay_url: Seq<char>,
    pub goblinpay_token: Seq<char>,
    pub transfers: bool,
    pub grin_node_url: Seq<char>,
}

impl View for Answers {
    type V = AnswersView;

    open spec fn view(&self) -> AnswersView {
        AnswersView {
            domain: self.domain@,
            bind_addr: self.bind_addr@,
            data_dir: self.data_dir@,
            pay_mode: self.pay_mode@,
            price_grin: self.price_grin@,
            goblinpay_url: self.goblinpay_url@,
            goblinpay_token: self.goblinpay_token@,
            transfers: self.transfers,
            grin_node_url: self.grin_node_url@,
        }
    }
}

/// The database in a data directory.
pub open spec fn db_path(dir: Seq<char>) -> Seq<char> {
    if dir.len() == 0 || dir.last() == '/' {
        dir + "names.db"@
    } else {
        dir + "/names.db"@
    }
}

/// The database in a data directory.
pub fn db_path_in(dir: &str) -> (path: String)
    ensures
        path@ == db_path(dir@),
{
    let v = chars_of(dir);
    let mut path = dir.to_owned();
    if v.len() == 0 || v[v.len() - 1] == '/' {
        path.append("names.db");
    } else {
        path.append("/names.db");
    }
    path
}

/// The settings that the answers amount to, with `secret` as the setting for
/// the API token. The base URL and the relays are derived from the domain.
pub open spec fn settings_with(a: AnswersView, secret: (Seq<char>, Seq<char>)) -> Seq<
    (Seq<char>, Seq<char>),
> {
    seq![
        ("FLOONET_DOMAIN"@, a.domain),
        ("FLOONET_BASE_URL"@, "https://"@ + a.domain),
        ("FLOONET_RELAYS"@, "wss://"@ + a.domain),
        ("FLOONET_NAMES_BIND"@, a.bind_addr),
        ("FLOONET_NAMES_DB"@, db_path(a.data_dir)),
        ("FLOONET_PAY_MODE"@, a.pay_mode),
    ] + price_settings(a) + server_settings(a, secret) + transfer_settings(a)
}

/// The settings that the answers amount to, with the token among them.
pub open spec fn answer_settings(a: AnswersView) -> Seq<(Seq<char>, Seq<char>)> {
    settings_with(a, ("GOBLINPAY_TOKEN"@, a.goblinpay_token))
}

/// The settings that the answers amount to, with the file that holds the token
/// in place of the token.
pub open spec fn setup_settings(a: AnswersView, token_file: Seq<char>) -> Seq<
    (Seq<char>, Seq<char>),
> {
    settings_with(a, ("GOBLINPAY_TOKEN_FILE"@, token_file))
}

/// The price of what is sold.
pub open spec fn price_settings(a: AnswersView) -> Seq<(Seq<char>, Seq<char>)> {
    if a.pay_mode == "name"@ {
        seq![("FLOONET_NAME_PRICE_GRIN"@, a.price_grin)]
    } else if a.pay_mode == "write"@ {
        seq![("FLOONET_WRITE_PRICE_GRIN"@, a.price_grin)]
    } else {
        Seq::empty()
    }
}

/// The payment server, where anything is sold.
pub open spec fn server_settings(a: AnswersView, secret: (Seq<char>, Seq<char>)) -> Seq<
    (Seq<char>, Seq<char>),
> {
    if a.pay_mode != "off"@ {
        seq![("GOBLINPAY_URL"@, a.goblinpay_url), secret]
    } else {
        Seq::empty()
    }
}

/// The marketplace, where it is enabled.
pub open spec fn transfer_settings(a: AnswersView) -> Seq<(Seq<char>, Seq<char>)> {
    if a.transfers {
        seq![("FLOONET_TRANSFERS"@, "true"@), ("FLOONET_GRIN_NODE_URL"@, a.grin_node_url)]
    } else {
        Seq::empty()
    }
}

/// Settings written one on a line.
pub open spec fn written(list: Seq<(Seq<char>, Seq<char>)>) -> Seq<char>
    decreases list.len(),
{
    if list.len() == 0 {
        Seq::empty()
    } else {
        written(list.drop_last()) + list.last().0 + "="@ + list.last().1 + "\n"@
    }
}

/// An env file with these settings.
pub open spec fn file_text(list: Seq<(Seq<char>, Seq<char>)>) -> Seq<char> {
    "# Generated by the floonet-name-authority first-run setup wizard.\n"@
        + "# Edit freely; every key maps to a FLOONET_* variable (see .env.example).\n\n"@
        + written(list)
}

/// The env file of the answers, with the token in it.
pub open spec fn env_text(a: AnswersView) -> Seq<char> {
    file_text(answer_settings(a))
}

/// The env file that the setup writes: it names the file that holds the token.
pub open spec fn setup_env_text(a: AnswersView, token_file: Seq<char>) -> Seq<char> {
    file_text(setup_settings(a, token_file))
}

/// Settings are written one behind the other.
proof fn written_push(list: Seq<(Seq<char>, Seq<char>)>, key: Seq<char>, value: Seq<char>)
    ensures
        written(list.push((key, value))) == written(list) + key + "="@ + value + "\n"@,
{
    assert(list.push((key, value)).drop_last() =~= list);
}

fn write_setting(s: &mut String, list: Ghost<Seq<(Seq<char>, Seq<char>)>>, key: &str, value: &str)
    ensures
        forall|head: Seq<char>|
            old(s)@ == head + written(list@) ==> final(s)@ == #[trigger] (head + written(
                list@.push((key@, value@)),
            )),
{
    let ghost before = s@;
    s.append(key);
    s.append("=");
    s.append(value);
    s.append("\n");
    proof {
        written_push(list@, key@, value@);
        assert forall|head: Seq<char>| before == head + written(list@) implies s@ == #[trigger] (head
            + written(list@.push((key@, value@)))) by {
            assert(s@ =~= head + written(list@.push((key@, value@))));
        }
    }
}

/// The env file of the answers, with a setting for the API token. Only the keys
/// that the answers touch are written.
fn render(a: &Answers, secret_key: &str, secret: &str) -> (s: String)
    ensures
        s@ == file_text(settings_with(a@, (secret_key@, secret@))),
{
    let mut s = "# Generated by the floonet-name-authority first-run setup wizard.\n".to_owned();
    s.append("# Edit freely; every key maps to a FLOONET_* variable (see .env.example).\n\n");
    let ghost head = s@;
    let ghost mut list = Seq::<(Seq<char>, Seq<char>)>::empty();
    assert(head + written(list) =~= head);
    let mut url = "https://".to_owned();
    url.append(a.domain.as_str());
    let mut relay = "wss://".to_owned();
    relay.append(a.domain.as_str());
    let db = db_path_in(a.data_dir.as_str());
    write_setting(&mut s, Ghost(list), "FLOONET_DOMAIN", a.domain.as_str());
    proof {
        list = list.push(("FLOONET_DOMAIN"@, a.domain@));
    }
    write_setting(&mut s, Ghost(list), "FLOONET_BASE_URL", url.as_str());
    proof {
        list = list.push(("FLOONET_BASE_URL"@, url@));
    }
    write_setting(&mut s, Ghost(list), "FLOONET_RELAYS", relay.as_str());
    proof {
        list = list.push(("FLOONET_RELAYS"@, relay@));
    }
    write_setting(&mut s, Ghost(list), "FLOONET_NAMES_BIND", a.bind_addr.as_str());
    proof {
        list = list.push(("FLOONET_NAMES_BIND"@, a.bind_addr@));
    }
    write_setting(&mut s, Ghost(list), "FLOONET_NAMES_DB", db.as_str());
    proof {
        list = list.push(("FLOONET_NAMES_DB"@, db@));
    }
    write_setting(&mut s, Ghost(list), "FLOONET_PAY_MODE", a.pay_mode.as_str());
    proof {
        list = list.push(("FLOONET_PAY_MODE"@, a.pay_mode@));
    }
    if same(a.pay_mode.as_str(), "name") {
        write_setting(&mut s, Ghost(list), "FLOONET_NAME_PRICE_GRIN", a.price_grin.as_str());
        proof {
            list = list.push(("FLOONET_NAME_PRICE_GRIN"@, a.price_grin@));
        }
    } else if same(a.pay_mode.as_str(), "write") {
        write_setting(&mut s, Ghost(list), "FLOONET_WRITE_PRICE_GRIN", a.price_grin.as_str());
        proof {
            list = list.push(("FLOONET_WRITE_PRICE_GRIN"@, a.price_grin@));
        }
    }
    if !same(a.pay_mode.as_str(), "off") {
        write_setting(&mut s, Ghost(list), "GOBLINPAY_URL", a.goblinpay_url.as_str());
        proof {
            list = list.push(("GOBLINPAY_URL"@, a.goblinpay_url@));
        }
        write_setting(&mut s, Ghost(list), secret_key, secret);
        proof {
            list = list.push((secret_key@, secret@));
        }
    }
    if a.transfers {
        write_setting(&mut s, Ghost(list), "FLOONET_TRANSFERS", "true");
        proof {
            list = list.push(("FLOONET_TRANSFERS"@, "true"@));
        }
        write_setting(&mut s, Ghost(list), "FLOONET_GRIN_NODE_URL", a.grin_node_url.as_str());
        proof {
            list = list.push(("FLOONET_GRIN_NODE_URL"@, a.grin_node_url@));
        }
    }
    assert(list =~= settings_with(a@, (secret_key@, secret@)));
    s
}

/// The env file of the answers with the token in it, for a throwaway test. What
/// the setup writes is [`setup_files`].
pub fn render_env(a: &Answers) -> (s: String)
    ensures
        s@ == env_text(a@),
{
    render(a, "GOBLINPAY_TOKEN", a.goblinpay_token.as_str())
}

/// The file for the token beside an env file.
pub open spec fn token_path(target: Seq<char>) -> Seq<char> {
    target + ".token"@
}

/// The file for the token beside an env file. It is another file.
pub fn token_file_for(target: &str) -> (path: String)
    ensures
        path@ == token_path(target@),
        path@ != target@,
{
    let mut path = target.to_owned();
    path.append(".token");
    proof {
        reveal_strlit(".token");
        assert(path@.len() == target@.len() + 6);
    }
    path
}

/// What the setup writes.
pub struct SetupFiles {
    /// The env file.
    pub env: String,
    /// The file that holds the token, for its owner's eyes alone; `None` where
    /// there is no token to keep.
    pub token: Option<String>,
}

/// The token that the setup keeps: where anything is sold and one was given.
pub open spec fn kept_token(a: AnswersView) -> Option<Seq<char>> {
    if a.pay_mode != "off"@ && a.goblinpay_token.len() > 0 {
        Some(a.goblinpay_token)
    } else {
        None
    }
}

/// What the setup writes: an env file that names `token_file`, and the token
/// for that file. The token does not stand in the env file.
pub fn setup_files(a: &Answers, token_file: &str) -> (f: SetupFiles)
    ensures
        f.env@ == setup_env_text(a@, token_file@),
        text::opt_view(f.token) == kept_token(a@),
{
    let env = render(a, "GOBLINPAY_TOKEN_FILE", token_file);
    let token = if !same(a.pay_mode.as_str(), "off") && !a.goblinpay_token.as_str().is_empty() {
        Some(a.goblinpay_token.clone())
    } else {
        None
    };
    SetupFiles { env, token }
}

// ---------------------------------------------------------------------------
// The questions
// ---------------------------------------------------------------------------

/// A question with its default, as it is shown.
pub open spec fn question(q: Seq<char>, default: Seq<char>) -> Seq<char> {
    if default.len() == 0 {
        q + ": "@
    } else {
        q + " ["@ + default + "]: "@
    }
}

/// The answer on a line: the default where the line is blank.
pub open spec fn answer(line: Seq<char>, default: Seq<char>) -> Seq<char> {
    let given = text::trimmed(line);
    if given.len() == 0 {
        default
    } else {
        given
    }
}

/// A way to charge.
pub open spec fn is_pay_mode(s: Seq<char>) -> bool {
    s == "off"@ || s == "name"@ || s == "write"@
}

/// How the question for the pay mode stands.
pub enum Mode {
    /// It is to be asked, for the first time or again.
    Open { again: bool },
    /// It is answered, with this many lines read so far. After five answers
    /// that are none, nothing is charged.
    Settled { mode: Seq<char>, read: int, gave_up: bool },
}

/// How the question for the pay mode stands, from the line `at` on, with `left`
/// tries left of five.
pub open spec fn pay_mode(lines: Seq<Seq<char>>, at: int, left: nat) -> Mode
    decreases left,
{
    if left == 0 {
        Mode::Settled { mode: "off"@, read: at, gave_up: true }
    } else if at >= lines.len() {
        Mode::Open { again: left < 5 }
    } else {
        let given = text::lower(answer(lines[at], "off"@));
        if is_pay_mode(given) {
            Mode::Settled { mode: given, read: at + 1, gave_up: false }
        } else {
            pay_mode(lines, at + 1, (left - 1) as nat)
        }
    }
}

/// Whether an answer says yes.
pub open spec fn says_yes(line: Seq<char>) -> bool {
    let given = text::lower(text::trimmed(answer(line, "y/N"@)));
    given == "y"@ || given == "yes"@
}

/// Where the setup stands.
pub enum WizardView {
    /// Show this and read a line.
    Show(Seq<char>),
    /// Show this and read a line without showing it.
    Hide(Seq<char>),
    /// Everything is answered.
    Done(AnswersView),
}

/// What is said before the first question.
pub open spec fn welcome() -> Seq<char> {
    "\nFloonet name authority: first-run setup\n"@
        + "No configuration found. A few questions and we are running.\n"@
        + "Press Enter to accept each [default].\n\n"@
}

/// What is said to an answer that is no pay mode.
pub open spec fn complaint() -> Seq<char> {
    "  Please answer one of: off, name, write\n"@
}

/// The setup, after these lines were read.
pub open spec fn wizard(lines: Seq<Seq<char>>) -> WizardView {
    if lines.len() == 0 {
        WizardView::Show(
            welcome() + question(
                "Domain for names (the @domain in name@domain)"@,
                "floonet.example"@,
            ),
        )
    } else if lines.len() == 1 {
        WizardView::Show(question("HTTP bind address"@, "127.0.0.1:8191"@))
    } else if lines.len() == 2 {
        WizardView::Show(
            question(
                "Data directory (SQLite database lives here)"@,
                "/var/lib/floonet-authority"@,
            ),
        )
    } else {
        match pay_mode(lines, 3, 5) {
            Mode::Open { again } => WizardView::Show(
                (if again {
                    complaint()
                } else {
                    "\nCharging GRIN is optional; leave as `off` for a free authority.\n"@
                }) + question("Pay mode (off/name/write)"@, "off"@),
            ),
            Mode::Settled { mode, read, gave_up } => if mode == "off"@ {
                wizard_transfers(lines, mode, Seq::empty(), Seq::empty(), Seq::empty(), read, gave_up)
            } else if lines.len() <= read {
                WizardView::Show(
                    question(
                        if mode == "name"@ {
                            "Price to claim a name, in GRIN"@
                        } else {
                            "Price for write access, in GRIN"@
                        },
                        "1"@,
                    ),
                )
            } else if lines.len() <= read + 1 {
                WizardView::Show(question("GoblinPay server URL"@, "http://127.0.0.1:8192"@))
            } else if lines.len() <= read + 2 {
                WizardView::Hide(question("GoblinPay API token"@, ""@))
            } else {
                wizard_transfers(
                    lines,
                    mode,
                    answer(lines[read], "1"@),
                    answer(lines[read + 1], "http://127.0.0.1:8192"@),
                    answer(lines[read + 2], ""@),
                    read + 3,
                    gave_up,
                )
            },
        }
    }
}

/// The last questions: whether to enable the marketplace, and with which node.
pub open spec fn wizard_transfers(
    lines: Seq<Seq<char>>,
    mode: Seq<char>,
    price: Seq<char>,
    url: Seq<char>,
    token: Seq<char>,
    read: int,
    gave_up: bool,
) -> WizardView {
    if lines.len() <= read {
        WizardView::Show(
            (if gave_up {
                complaint()
            } else {
                Seq::empty()
            }) + "\nName transfers are the optional non-custodial name marketplace.\n"@ + question(
                "Enable name transfers?"@,
                "y/N"@,
            ),
        )
    } else if says_yes(lines[read]) && lines.len() <= read + 1 {
        WizardView::Show(
            question("Grin node foreign-API URL"@, "https://api.grin.money/v2/foreign"@),
        )
    } else {
        WizardView::Done(
            AnswersView {
                domain: answer(lines[0], "floonet.example"@),
                bind_addr: answer(lines[1], "127.0.0.1:8191"@),
                data_dir: answer(lines[2], "/var/lib/floonet-authority"@),
                pay_mode: mode,
                price_grin: price,
                goblinpay_url: url,
                goblinpay_token: token,
                transfers: says_yes(lines[read]),
                grin_node_url: if says_yes(lines[read]) {
                    answer(lines[read + 1], "https://api.grin.money/v2/foreign"@)
                } else {
                    Seq::empty()
                },
            },
        )
    }
}

/// Where the setup stands.
pub enum Wizard {
    /// Show this and read a line; the end of the input counts as a blank one.
    Show(String),
    /// The same, but what is typed is a secret: it is not shown.
    Hide(String),
    /// Everything is answered.
    Done(Answers),
}

impl View for Wizard {
    type V = WizardView;

    open spec fn view(&self) -> WizardView {
        match self {
            Wizard::Show(s) => WizardView::Show(s@),
            Wizard::Hide(s) => WizardView::Hide(s@),
            Wizard::Done(a) => WizardView::Done(a@),
        }
    }
}

fn prompt(before: &str, q: &str, default: &str) -> (s: String)
    ensures
        s@ == before@ + question(q@, default@),
{
    let mut s = before.to_owned();
    s.append(q);
    if default.is_empty() {
        s.append(": ");
    } else {
        s.append(" [");
        s.append(default);
        s.append("]: ");
    }
    assert(s@ =~= before@ + question(q@, default@));
    s
}

fn show(before: &str, q: &str, default: &str) -> (w: Wizard)
    ensures
        w@ == WizardView::Show(before@ + question(q@, default@)),
{
    Wizard::Show(prompt(before, q, default))
}

fn show_plain(q: &str, default: &str) -> (w: Wizard)
    ensures
        w@ == WizardView::Show(question(q@, default@)),
{
    proof {
        reveal_strlit("");
        assert(""@ + question(q@, default@) =~= question(q@, default@));
    }
    show("", q, default)
}

fn given(line: &str, default: &str) -> (s: String)
    ensures
        s@ == answer(line@, default@),
{
    let t = trim(line);
    if t.is_empty() {
        default.to_owned()
    } else {
        t.to_owned()
    }
}

fn yes(line: &str) -> (b: bool)
    ensures
        b == says_yes(line@),
{
    let answer = given(line, "y/N");
    let lower = to_lower(trim(answer.as_str()));
    same(lower.as_str(), "y") || same(lower.as_str(), "yes")
}

/// What the last questions start from.
struct Charges {
    mode: String,
    price: String,
    url: String,
    token: String,
}

fn last_questions(lines: &Vec<String>, c: Charges, read: usize, gave_up: bool) -> (w: Wizard)
    requires
        3 <= read <= lines.len(),
    ensures
        w@ == wizard_transfers(
            text::views(lines@),
            c.mode@,
            c.price@,
            c.url@,
            c.token@,
            read as int,
            gave_up,
        ),
{
    let ghost all = text::views(lines@);
    if lines.len() == read {
        let mut before = String::new();
        if gave_up {
            before.append("  Please answer one of: off, name, write\n");
            assert(before@ =~= complaint());
        }
        before.append("\nName transfers are the optional non-custodial name marketplace.\n");
        return show(before.as_str(), "Enable name transfers?", "y/N");
    }
    let transfers = yes(lines[read].as_str());
    let mut grin_node_url = String::new();
    if transfers {
        if lines.len() == read + 1 {
            return show_plain("Grin node foreign-API URL", "https://api.grin.money/v2/foreign");
        }
        grin_node_url = given(lines[read + 1].as_str(), "https://api.grin.money/v2/foreign");
    }
    Wizard::Done(
        Answers {
            domain: given(lines[0].as_str(), "floonet.example"),
            bind_addr: given(lines[1].as_str(), "127.0.0.1:8191"),
            data_dir: given(lines[2].as_str(), "/var/lib/floonet-authority"),
            pay_mode: c.mode,
            price_grin: c.price,
            goblinpay_url: c.url,
            goblinpay_token: c.token,
            transfers,
            grin_node_url,
        },
    )
}

/// The setup, after these lines were read: what to show before the next line,
/// or the answers.
pub fn collect_answers(lines: &Vec<String>) -> (w: Wizard)
    ensures
        w@ == wizard(text::views(lines@)),
{
    let ghost all = text::views(lines@);
    if lines.len() == 0 {
        let mut before = "\nFloonet name authority: first-run setup\n".to_owned();
        before.append("No configuration found. A few questions and we are running.\n");
        before.append("Press Enter to accept each [default].\n\n");
        return show(
            before.as_str(),
            "Domain for names (the @domain in name@domain)",
            "floonet.example",
        );
    }
    if lines.len() == 1 {
        return show_plain("HTTP bind address", "127.0.0.1:8191");
    }
    if lines.len() == 2 {
        return show_plain(
            "Data directory (SQLite database lives here)",
            "/var/lib/floonet-authority",
        );
    }
    let mut at: usize = 3;
    let mut left: usize = 5;
    let mut mode = "off".to_owned();
    let mut gave_up = true;
    while left > 0
        invariant_except_break
            gave_up,
            mode@ == "off"@,
        invariant
            all == text::views(lines@),
            3 <= at <= lines.len(),
            left <= 5,
            gave_up ==> pay_mode(all, 3, 5) == pay_mode(all, at as int, left as nat),
        ensures
            pay_mode(all, 3, 5) == (Mode::Settled { mode: mode@, read: at as int, gave_up }),
        decreases left,
    {
        if at == lines.len() {
            if left < 5 {
                return show(
                    "  Please answer one of: off, name, write\n",
                    "Pay mode (off/name/write)",
                    "off",
                );
            }
            return show(
                "\nCharging GRIN is optional; leave as `off` for a free authority.\n",
                "Pay mode (off/name/write)",
                "off",
            );
        }
        let answer = given(lines[at].as_str(), "off");
        let lower = to_lower(answer.as_str());
        at = at + 1;
        if same(lower.as_str(), "off") || same(lower.as_str(), "name") || same(
            lower.as_str(),
            "write",
        ) {
            mode = lower;
            gave_up = false;
            break;
        }
        left = left - 1;
    }
    if same(mode.as_str(), "off") {
        let c = Charges { mode, price: String::new(), url: String::new(), token: String::new() };
        return last_questions(lines, c, at, gave_up);
    }
    if lines.len() == at {
        if same(mode.as_str(), "name") {
            return show_plain("Price to claim a name, in GRIN", "1");
        }
        return show_plain("Price for write access, in GRIN", "1");
    }
    if lines.len() == at + 1 {
        return show_plain("GoblinPay server URL", "http://127.0.0.1:8192");
    }
    if lines.len() == at + 2 {
        let q = prompt("", "GoblinPay API token", "");
        proof {
            reveal_strlit("");
            assert(q@ =~= question("GoblinPay API token"@, ""@));
        }
        return Wizard::Hide(q);
    }
    let c = Charges {
        mode,
        price: given(lines[at].as_str(), "1"),
        url: given(lines[at + 1].as_str(), "http://127.0.0.1:8192"),
        token: given(lines[at + 2].as_str(), ""),
    };
    last_questions(lines, c, at + 3, gave_up)
}

// ---------------------------------------------------------------------------
// Laws
// ---------------------------------------------------------------------------

/// Loading an env file overrides nothing: whatever it sets was not set before,
/// so every variable that was set keeps its value.
pub proof fn loading_overrides_nothing(
    vars: Seq<(Seq<char>, Seq<char>)>,
    settings: Seq<(Seq<char>, Seq<char>)>,
)
    ensures
        forall|i: int|
            0 <= i < taken(vars, settings).len() ==> config::first_under(
                vars,
                #[trigger] taken(vars, settings)[i].0,
            ) is None,
    decreases settings.len(),
{
    if settings.len() > 0 {
        loading_overrides_nothing(vars, settings.drop_last());
    }
}

/// Loading an env file sets every variable that it names and that was not set
/// before, to the value that stands first in the file.
pub proof fn loading_sets_the_rest(
    vars: Seq<(Seq<char>, Seq<char>)>,
    settings: Seq<(Seq<char>, Seq<char>)>,
    key: Seq<char>,
)
    requires
        config::first_under(vars, key) is None,
    ensures
        config::first_under(taken(vars, settings), key) == config::first_under(settings, key),
    decreases settings.len(),
{
    if settings.len() > 0 {
        let rest = settings.drop_last();
        let last = settings.last();
        loading_sets_the_rest(vars, rest, key);
        assert(settings =~= rest.push(last));
        first_under_push(rest, last, key);
        first_under_push(taken(vars, rest), last, key);
    }
}

/// A pair behind a list counts only where its key does not stand in it.
proof fn first_under_push<T>(list: Seq<(Seq<char>, T)>, last: (Seq<char>, T), key: Seq<char>)
    ensures
        config::first_under(list.push(last), key) == match config::first_under(list, key) {
            Some(v) => Some(v),
            None => if last.0 == key {
                Some(last.1)
            } else {
                None
            },
        },
    decreases list.len(),
{
    if list.len() == 0 {
        assert(list.push(last).skip(1) =~= list);
    } else {
        first_under_push(list.skip(1), last, key);
        assert(list.push(last).skip(1) =~= list.skip(1).push(last));
    }
}

/// A configured authority is never asked by itself: without `--reconfigure`
/// nobody is asked anything where there is a configuration.
pub proof fn configured_is_never_asked(args: Seq<Seq<char>>, interactive: bool)
    requires
        !args.contains("--reconfigure"@),
    ensures
        start_of(args, true, interactive) != Start::Ask,
{
}

/// The setup ends after thirteen lines at most, whatever they hold, and gives a
/// pay mode that exists. So a misused stream cannot hold up the start.
pub proof fn setup_ends(lines: Seq<Seq<char>>)
    ensures
        lines.len() >= 13 ==> wizard(lines) is Done,
        wizard(lines) matches WizardView::Done(a) ==> is_pay_mode(a.pay_mode),
{
    pay_mode_ends(lines, 3, 5);
}

proof fn pay_mode_ends(lines: Seq<Seq<char>>, at: int, left: nat)
    requires
        0 <= at,
    ensures
        pay_mode(lines, at, left) matches Mode::Settled { mode, read, gave_up } ==> is_pay_mode(mode)
            && at <= read <= at + left,
        lines.len() >= at + left ==> pay_mode(lines, at, left) is Settled,
    decreases left,
{
    if left > 0 && at < lines.len() {
        pay_mode_ends(lines, at + 1, (left - 1) as nat);
    }
}

/// The token is typed out of sight: where the setup ends with one, it was read
/// at a question that does not show what is typed. Nothing else is asked so.
pub proof fn token_is_typed_hidden(lines: Seq<Seq<char>>)
    ensures
        wizard(lines) matches WizardView::Done(a) ==> a.goblinpay_token.len() > 0 ==> exists|n: int|
            0 <= n < lines.len() && #[trigger] wizard(lines.take(n)) is Hide && a.goblinpay_token
                == answer(lines[n], ""@),
        wizard(lines) matches WizardView::Hide(q) ==> q == question("GoblinPay API token"@, ""@),
{
    if let WizardView::Done(a) = wizard(lines) {
        if a.goblinpay_token.len() > 0 {
            pay_mode_ends(lines, 3, 5);
            let read = pay_mode(lines, 3, 5)->read;
            let n = read + 2;
            pay_mode_of_start(lines, n, 3, 5);
            assert(wizard(lines.take(n)) is Hide);
        }
    }
}

/// The pay mode is settled by the lines that were read for it.
proof fn pay_mode_of_start(lines: Seq<Seq<char>>, n: int, at: int, left: nat)
    requires
        0 <= at,
        0 <= n <= lines.len(),
        pay_mode(lines, at, left) matches Mode::Settled { mode, read, gave_up } && read <= n,
    ensures
        pay_mode(lines.take(n), at, left) == pay_mode(lines, at, left),
    decreases left,
{
    if left > 0 {
        pay_mode_ends(lines, at, left);
        if at < lines.len() && !is_pay_mode(text::lower(answer(lines[at], "off"@))) {
            pay_mode_ends(lines, at + 1, (left - 1) as nat);
            pay_mode_of_start(lines, n, at + 1, (left - 1) as nat);
        }
    }
}

/// A value that an env file gives back as it is: on one line, without white
/// space or a layer of quotes around it.
pub open spec fn is_plain(v: Seq<char>) -> bool {
    &&& !v.contains('\n')
    &&& text::trimmed(v) == v
    &&& unquoted(v) == v
}

/// A key: capitals and underscores.
pub open spec fn is_key(k: Seq<char>) -> bool {
    &&& k.len() > 0
    &&& forall|i: int| 0 <= i < k.len() ==> 'A' <= #[trigger] k[i] <= 'Z' || k[i] == '_'
}

proof fn trim_end_shortens(s: Seq<char>)
    ensures
        text::trim_end(s).len() <= s.len(),
        s.len() > 0 && text::is_space(s.last()) ==> text::trim_end(s).len() < s.len(),
    decreases s.len(),
{
    if s.len() > 0 && text::is_space(s.last()) {
        trim_end_shortens(s.drop_last());
    }
}

proof fn trim_start_shortens(s: Seq<char>)
    ensures
        text::trim_start(s).len() <= s.len(),
        s.len() > 0 && text::is_space(s[0]) ==> text::trim_start(s).len() < s.len(),
    decreases s.len(),
{
    if s.len() > 0 && text::is_space(s[0]) {
        trim_start_shortens(s.skip(1));
    }
}

/// What is trimmed has no white space at its ends.
proof fn trimmed_ends(s: Seq<char>)
    requires
        text::trimmed(s) == s,
        s.len() > 0,
    ensures
        !text::is_space(s[0]),
        !text::is_space(s.last()),
{
    trim_start_shortens(s);
    trim_end_shortens(text::trim_start(s));
    trim_end_shortens(s);
}

/// What has no white space at its ends is trimmed.
proof fn ends_trimmed(s: Seq<char>)
    requires
        s.len() > 0 ==> !text::is_space(s[0]) && !text::is_space(s.last()),
    ensures
        text::trimmed(s) == s,
{
}

/// A setting reads back from the line that it is written on.
proof fn setting_reads_back(key: Seq<char>, value: Seq<char>)
    requires
        is_key(key),
        is_plain(value),
    ensures
        setting(key + "="@ + value) == Some((key, value)),
        !(key + "="@ + value).contains('\n'),
{
    reveal_strlit("=");
    reveal_strlit("export ");
    let line = key + "="@ + value;
    let at = key.len() as int;
    assert(line[at] == '=');
    assert forall|i: int| 0 <= i < at implies #[trigger] line[i] == key[i] by {}
    assert(key[0] == line[0]);
    if value.len() > 0 {
        trimmed_ends(value);
        assert(line.last() == value.last());
    } else {
        assert(line.last() == '=');
    }
    ends_trimmed(line);
    assert("export "@[0] == 'e');
    assert(!("export "@.is_prefix_of(line))) by {
        if "export "@.is_prefix_of(line) {
            assert(line.take("export "@.len() as int)[0] == line[0]);
        }
    }
    text::find_unique(line, '=', at);
    assert(line.take(at) =~= key);
    assert(line.skip(at + 1) =~= value);
    crate::amount::no_space_trimmed(key);
    assert forall|i: int| 0 <= i < line.len() implies line[i] != '\n' by {
        if i > at {
            assert(line[i] == value[i - at - 1]);
            assert(value.contains(value[i - at - 1]));
        }
    }
}

/// The first line comes off the front.
proof fn first_piece(line: Seq<char>, rest: Seq<char>)
    requires
        !line.contains('\n'),
    ensures
        text::pieces(line + seq!['\n'] + rest, '\n') == seq![line] + text::pieces(rest, '\n'),
{
    let s = line + seq!['\n'] + rest;
    let at = line.len() as int;
    assert forall|i: int| 0 <= i < at implies s[i] != '\n' by {
        assert(s[i] == line[i]);
        assert(line.contains(line[i]));
    }
    assert(s[at] == '\n');
    text::find_unique(s, '\n', at);
    assert(s.take(at) =~= line);
    assert(s.skip(at + 1) =~= rest);
}

/// What the first line sets comes first.
proof fn settings_of_first(line: Seq<char>, rest: Seq<Seq<char>>)
    ensures
        settings_of(seq![line] + rest) == match setting(line) {
            Some(pair) => seq![pair] + settings_of(rest),
            None => settings_of(rest),
        },
    decreases rest.len(),
{
    let all = seq![line] + rest;
    if rest.len() == 0 {
        assert(all.drop_last() =~= Seq::<Seq<char>>::empty());
        assert(settings_of(all.drop_last()) =~= Seq::empty());
        assert(all.last() == line);
        match setting(line) {
            Some(pair) => {
                assert(Seq::<(Seq<char>, Seq<char>)>::empty().push(pair) =~= seq![pair]
                    + settings_of(rest));
            },
            None => {},
        }
    } else {
        settings_of_first(line, rest.drop_last());
        assert(all.drop_last() =~= seq![line] + rest.drop_last());
        assert(all.last() == rest.last());
        match setting(line) {
            Some(pair) => match setting(rest.last()) {
                Some(p) => {
                    assert((seq![pair] + settings_of(rest.drop_last())).push(p) =~= seq![pair]
                        + settings_of(rest.drop_last()).push(p));
                },
                None => {},
            },
            None => {},
        }
    }
}

/// What is written first stands first.
proof fn written_first(key: Seq<char>, value: Seq<char>, rest: Seq<(Seq<char>, Seq<char>)>)
    ensures
        written(seq![(key, value)] + rest) == key + "="@ + value + seq!['\n'] + written(rest),
    decreases rest.len(),
{
    reveal_strlit("\n");
    assert("\n"@ =~= seq!['\n']);
    let all = seq![(key, value)] + rest;
    if rest.len() == 0 {
        assert(all.drop_last() =~= Seq::<(Seq<char>, Seq<char>)>::empty());
        assert(all.last() == (key, value));
        assert(written(all.drop_last()) =~= Seq::<char>::empty());
        assert(written(rest) =~= Seq::<char>::empty());
        assert(written(all) =~= key + "="@ + value + seq!['\n'] + written(rest));
    } else {
        written_first(key, value, rest.drop_last());
        assert(all.drop_last() =~= seq![(key, value)] + rest.drop_last());
        assert(all.last() == rest.last());
        assert(written(all) =~= key + "="@ + value + seq!['\n'] + written(rest));
    }
}

/// Settings read back from where they are written, one on a line.
proof fn written_reads_back(list: Seq<(Seq<char>, Seq<char>)>)
    requires
        forall|i: int|
            0 <= i < list.len() ==> is_key((#[trigger] list[i]).0) && is_plain(list[i].1),
    ensures
        file_settings(written(list)) == list,
    decreases list.len(),
{
    if list.len() == 0 {
        let e = Seq::<char>::empty();
        assert(text::pieces(e, '\n') =~= seq![e]);
        assert(seq![e].drop_last() =~= Seq::<Seq<char>>::empty());
        assert(setting(e) is None);
        assert(seq![e].last() == e);
        assert(settings_of(seq![e].drop_last()) =~= Seq::empty());
        assert(settings_of(seq![e]) =~= Seq::empty());
    } else {
        let (key, value) = list[0];
        let rest = list.skip(1);
        assert(list =~= seq![(key, value)] + rest);
        assert forall|i: int| 0 <= i < rest.len() implies is_key((#[trigger] rest[i]).0) && is_plain(
            rest[i].1,
        ) by {
            assert(rest[i] == list[i + 1]);
        }
        written_reads_back(rest);
        written_first(key, value, rest);
        setting_reads_back(key, value);
        first_piece(key + "="@ + value, written(rest));
        settings_of_first(key + "="@ + value, text::pieces(written(rest), '\n'));
    }
}

/// A comment sets nothing.
proof fn comment_is_skipped(line: Seq<char>, rest: Seq<char>)
    requires
        line.len() == 0 || line[0] == '#',
        !line.contains('\n'),
    ensures
        file_settings(line + seq!['\n'] + rest) == file_settings(rest),
{
    first_piece(line, rest);
    settings_of_first(line, text::pieces(rest, '\n'));
    assert(setting(line) is None) by {
        if line.len() > 0 {
            trim_keeps_first(line);
        }
    }
}

/// Trimming keeps a first character that is no white space.
proof fn trim_keeps_first(s: Seq<char>)
    requires
        s.len() > 0,
        !text::is_space(s[0]),
    ensures
        text::trimmed(s).len() > 0,
        text::trimmed(s)[0] == s[0],
{
    trim_end_keeps_first(s);
}

proof fn trim_end_keeps_first(s: Seq<char>)
    requires
        s.len() > 0,
        !text::is_space(s[0]),
    ensures
        text::trim_end(s).len() > 0,
        text::trim_end(s)[0] == s[0],
    decreases s.len(),
{
    if text::is_space(s.last()) {
        trim_end_keeps_first(s.drop_last());
    }
}

/// Whether an env file gives the answers, but for the token, back as they are.
pub open spec fn are_plain(a: AnswersView) -> bool {
    &&& is_plain(a.domain) && is_plain(a.bind_addr) && is_plain(a.data_dir)
    &&& is_plain(a.pay_mode) && is_plain(a.price_grin)
    &&& is_plain(a.goblinpay_url) && is_plain(a.grin_node_url)
}

/// A plain value behind a prefix that starts plain and ends with `/`, or before
/// a suffix that ends plain, is plain.
proof fn joined_is_plain(a: Seq<char>, b: Seq<char>)
    requires
        !a.contains('\n'),
        !b.contains('\n'),
        a.len() > 0 ==> !text::is_space(a[0]),
        b.len() > 0 ==> !text::is_space(b.last()),
        a.len() == 0 ==> b.len() > 0 ==> !text::is_space(b[0]),
        b.len() == 0 ==> a.len() > 0 ==> !text::is_space(a.last()),
        (a.len() > 0 && a[0] != '"' && a[0] != '\'') || (b.len() > 0 && b.last() != '"' && b.last()
            != '\''),
    ensures
        is_plain(a + b),
{
    let s = a + b;
    assert forall|i: int| 0 <= i < s.len() implies s[i] != '\n' by {
        if i < a.len() {
            assert(s[i] == a[i]);
            assert(a.contains(a[i]));
        } else {
            assert(s[i] == b[i - a.len()]);
            assert(b.contains(b[i - a.len()]));
        }
    }
    if s.len() > 0 {
        if a.len() > 0 {
            assert(s[0] == a[0]);
        } else {
            assert(s[0] == b[0]);
        }
        if b.len() > 0 {
            assert(s.last() == b.last());
        } else {
            assert(s.last() == a.last());
        }
    }
    ends_trimmed(s);
}

proof fn derived_settings_are_plain(a: AnswersView)
    requires
        are_plain(a),
    ensures
        is_plain("https://"@ + a.domain),
        is_plain("wss://"@ + a.domain),
        is_plain(db_path(a.data_dir)),
        is_plain("true"@),
{
    reveal_strlit("https://");
    reveal_strlit("wss://");
    reveal_strlit("names.db");
    reveal_strlit("/names.db");
    reveal_strlit("true");
    if a.domain.len() > 0 {
        trimmed_ends(a.domain);
    }
    if a.data_dir.len() > 0 {
        trimmed_ends(a.data_dir);
    }
    joined_is_plain("https://"@, a.domain);
    joined_is_plain("wss://"@, a.domain);
    if a.data_dir.len() == 0 || a.data_dir.last() == '/' {
        joined_is_plain(a.data_dir, "names.db"@);
    } else {
        joined_is_plain(a.data_dir, "/names.db"@);
    }
    joined_is_plain("true"@, Seq::empty());
    assert("true"@ + Seq::empty() =~= "true"@);
}

proof fn setting_keys_are_keys()
    ensures
        is_key("FLOONET_DOMAIN"@),
        is_key("FLOONET_BASE_URL"@),
        is_key("FLOONET_RELAYS"@),
        is_key("FLOONET_NAMES_BIND"@),
        is_key("FLOONET_NAMES_DB"@),
        is_key("FLOONET_PAY_MODE"@),
        is_key("FLOONET_NAME_PRICE_GRIN"@),
        is_key("FLOONET_WRITE_PRICE_GRIN"@),
        is_key("GOBLINPAY_URL"@),
        is_key("GOBLINPAY_TOKEN"@),
        is_key("GOBLINPAY_TOKEN_FILE"@),
        is_key("FLOONET_TRANSFERS"@),
        is_key("FLOONET_GRIN_NODE_URL"@),
{
    assert(is_key("FLOONET_DOMAIN"@)) by {
        reveal_strlit("FLOONET_DOMAIN");
    }
    assert(is_key("FLOONET_BASE_URL"@)) by {
        reveal_strlit("FLOONET_BASE_URL");
    }
    assert(is_key("FLOONET_RELAYS"@)) by {
        reveal_strlit("FLOONET_RELAYS");
    }
    assert(is_key("FLOONET_NAMES_BIND"@)) by {
        reveal_strlit("FLOONET_NAMES_BIND");
    }
    assert(is_key("FLOONET_NAMES_DB"@)) by {
        reveal_strlit("FLOONET_NAMES_DB");
    }
    assert(is_key("FLOONET_PAY_MODE"@)) by {
        reveal_strlit("FLOONET_PAY_MODE");
    }
    assert(is_key("FLOONET_NAME_PRICE_GRIN"@)) by {
        reveal_strlit("FLOONET_NAME_PRICE_GRIN");
    }
    assert(is_key("FLOONET_WRITE_PRICE_GRIN"@)) by {
        reveal_strlit("FLOONET_WRITE_PRICE_GRIN");
    }
    assert(is_key("GOBLINPAY_URL"@)) by {
        reveal_strlit("GOBLINPAY_URL");
    }
    assert(is_key("GOBLINPAY_TOKEN"@)) by {
        reveal_strlit("GOBLINPAY_TOKEN");
    }
    assert(is_key("GOBLINPAY_TOKEN_FILE"@)) by {
        reveal_strlit("GOBLINPAY_TOKEN_FILE");
    }
    assert(is_key("FLOONET_TRANSFERS"@)) by {
        reveal_strlit("FLOONET_TRANSFERS");
    }
    assert(is_key("FLOONET_GRIN_NODE_URL"@)) by {
        reveal_strlit("FLOONET_GRIN_NODE_URL");
    }
}

/// The env file that the setup writes does not depend on the token: it is the
/// same for answers that differ in the token alone. So nothing of the token
/// stands in it.
pub proof fn token_stays_out(a: AnswersView, b: AnswersView, token_file: Seq<char>)
    requires
        a == (AnswersView { goblinpay_token: a.goblinpay_token, ..b }),
    ensures
        setup_env_text(a, token_file) == setup_env_text(b, token_file),
{
}

/// Env files give back the settings that the answers amount to, where the
/// answers are such that an env file can hold them: the one that the setup
/// writes, and the one with the token in it.
pub proof fn env_file_reads_back(a: AnswersView, token_file: Seq<char>)
    requires
        are_plain(a),
    ensures
        is_plain(token_file) ==> file_settings(setup_env_text(a, token_file)) == setup_settings(
            a,
            token_file,
        ),
        is_plain(a.goblinpay_token) ==> file_settings(env_text(a)) == answer_settings(a),
{
    setting_keys_are_keys();
    if is_plain(token_file) {
        settings_read_back(a, ("GOBLINPAY_TOKEN_FILE"@, token_file));
    }
    if is_plain(a.goblinpay_token) {
        settings_read_back(a, ("GOBLINPAY_TOKEN"@, a.goblinpay_token));
    }
}

proof fn settings_read_back(a: AnswersView, secret: (Seq<char>, Seq<char>))
    requires
        are_plain(a),
        is_key(secret.0),
        is_plain(secret.1),
    ensures
        file_settings(file_text(settings_with(a, secret))) == settings_with(a, secret),
{
    let list = settings_with(a, secret);
    setting_keys_are_keys();
    derived_settings_are_plain(a);
    assert forall|i: int| 0 <= i < list.len() implies is_key((#[trigger] list[i]).0) && is_plain(
        list[i].1,
    ) by {
        let base = seq![
            ("FLOONET_DOMAIN"@, a.domain),
            ("FLOONET_BASE_URL"@, "https://"@ + a.domain),
            ("FLOONET_RELAYS"@, "wss://"@ + a.domain),
            ("FLOONET_NAMES_BIND"@, a.bind_addr),
            ("FLOONET_NAMES_DB"@, db_path(a.data_dir)),
            ("FLOONET_PAY_MODE"@, a.pay_mode),
        ];
        let p = price_settings(a);
        let q = server_settings(a, secret);
        if i < 6 {
            assert(list[i] == base[i]);
        } else if i < 6 + p.len() {
            assert(list[i] == p[i - 6]);
        } else if i < 6 + p.len() + q.len() {
            assert(list[i] == q[i - 6 - p.len()]);
        } else {
            assert(list[i] == transfer_settings(a)[i - 6 - p.len() - q.len()]);
        }
    }
    written_reads_back(list);
    let h1 = "# Generated by the floonet-name-authority first-run setup wizard.\n"@;
    let h2 = "# Edit freely; every key maps to a FLOONET_* variable (see .env.example).\n\n"@;
    let w = written(list);
    let e = Seq::<char>::empty();
    assert(h1.len() > 1 && h1[0] == '#' && h1 == h1.drop_last() + seq!['\n']
        && !h1.drop_last().contains('\n')) by {
        reveal_strlit("# Generated by the floonet-name-authority first-run setup wizard.\n");
        assert(h1 =~= h1.drop_last() + seq!['\n']);
    }
    assert(h2.len() > 2 && h2[0] == '#' && h2 == h2.take(h2.len() - 2) + seq!['\n'] + seq!['\n']
        && !h2.take(h2.len() - 2).contains('\n')) by {
        reveal_strlit("# Edit freely; every key maps to a FLOONET_* variable (see .env.example).\n\n");
        assert(h2 =~= h2.take(h2.len() - 2) + seq!['\n'] + seq!['\n']);
    }
    let l1 = h1.drop_last();
    let l2 = h2.take(h2.len() - 2);
    assert(file_text(list) =~= l1 + seq!['\n'] + (l2 + seq!['\n'] + (e + seq!['\n'] + w)));
    comment_is_skipped(l1, l2 + seq!['\n'] + (e + seq!['\n'] + w));
    comment_is_skipped(l2, e + seq!['\n'] + w);
    comment_is_skipped(e, w);
}

/// What tells the keys of the settings apart: the length, the ninth character
/// and the last.
spec fn print(k: Seq<char>) -> (int, char, char) {
    (k.len() as int, k[8], k.last())
}

proof fn prints_of_keys()
    ensures
        print("FLOONET_DOMAIN"@) == (14int, 'D', 'N'),
        print("FLOONET_BASE_URL"@) == (16int, 'B', 'L'),
        print("FLOONET_RELAYS"@) == (14int, 'R', 'S'),
        print("FLOONET_NAMES_BIND"@) == (18int, 'N', 'D'),
        print("FLOONET_NAMES_DB"@) == (16int, 'N', 'B'),
        print("FLOONET_PAY_MODE"@) == (16int, 'P', 'E'),
        print("FLOONET_NAME_PRICE_GRIN"@) == (23int, 'N', 'N'),
        print("FLOONET_WRITE_PRICE_GRIN"@) == (24int, 'W', 'N'),
        print("GOBLINPAY_URL"@) == (13int, 'Y', 'L'),
        print("GOBLINPAY_TOKEN"@) == (15int, 'Y', 'N'),
        print("FLOONET_TRANSFERS"@) == (17int, 'T', 'S'),
        print("FLOONET_GRIN_NODE_URL"@) == (21int, 'G', 'L'),
        print("FLOONET_RESERVED_FILE"@) == (21int, 'R', 'E'),
        print("GOBLINPAY_TOKEN_FILE"@) == (20int, 'Y', 'E'),
        print("GOBLINPAY_WEBHOOK_SECRET_FILE"@) == (29int, 'Y', 'E'),
        print("FLOONET_NAME_MIN"@) == (16int, 'N', 'N'),
        print("FLOONET_NAME_MAX"@) == (16int, 'N', 'X'),
{
    assert(print("FLOONET_DOMAIN"@) == (14int, 'D', 'N')) by {
        reveal_strlit("FLOONET_DOMAIN");
    }
    assert(print("FLOONET_BASE_URL"@) == (16int, 'B', 'L')) by {
        reveal_strlit("FLOONET_BASE_URL");
    }
    assert(print("FLOONET_RELAYS"@) == (14int, 'R', 'S')) by {
        reveal_strlit("FLOONET_RELAYS");
    }
    assert(print("FLOONET_NAMES_BIND"@) == (18int, 'N', 'D')) by {
        reveal_strlit("FLOONET_NAMES_BIND");
    }
    assert(print("FLOONET_NAMES_DB"@) == (16int, 'N', 'B')) by {
        reveal_strlit("FLOONET_NAMES_DB");
    }
    assert(print("FLOONET_PAY_MODE"@) == (16int, 'P', 'E')) by {
        reveal_strlit("FLOONET_PAY_MODE");
    }
    assert(print("FLOONET_NAME_PRICE_GRIN"@) == (23int, 'N', 'N')) by {
        reveal_strlit("FLOONET_NAME_PRICE_GRIN");
    }
    assert(print("FLOONET_WRITE_PRICE_GRIN"@) == (24int, 'W', 'N')) by {
        reveal_strlit("FLOONET_WRITE_PRICE_GRIN");
    }
    assert(print("GOBLINPAY_URL"@) == (13int, 'Y', 'L')) by {
        reveal_strlit("GOBLINPAY_URL");
    }
    assert(print("GOBLINPAY_TOKEN"@) == (15int, 'Y', 'N')) by {
        reveal_strlit("GOBLINPAY_TOKEN");
    }
    assert(print("FLOONET_TRANSFERS"@) == (17int, 'T', 'S')) by {
        reveal_strlit("FLOONET_TRANSFERS");
    }
    assert(print("FLOONET_GRIN_NODE_URL"@) == (21int, 'G', 'L')) by {
        reveal_strlit("FLOONET_GRIN_NODE_URL");
    }
    assert(print("FLOONET_RESERVED_FILE"@) == (21int, 'R', 'E')) by {
        reveal_strlit("FLOONET_RESERVED_FILE");
    }
    assert(print("GOBLINPAY_TOKEN_FILE"@) == (20int, 'Y', 'E')) by {
        reveal_strlit("GOBLINPAY_TOKEN_FILE");
    }
    assert(print("GOBLINPAY_WEBHOOK_SECRET_FILE"@) == (29int, 'Y', 'E')) by {
        reveal_strlit("GOBLINPAY_WEBHOOK_SECRET_FILE");
    }
    assert(print("FLOONET_NAME_MIN"@) == (16int, 'N', 'N')) by {
        reveal_strlit("FLOONET_NAME_MIN");
    }
    assert(print("FLOONET_NAME_MAX"@) == (16int, 'N', 'X')) by {
        reveal_strlit("FLOONET_NAME_MAX");
    }
}

/// The first pair of a list counts first.
proof fn first_under_first(key: Seq<char>, value: Seq<char>, rest: Seq<(Seq<char>, Seq<char>)>, k: Seq<
    char,
>)
    ensures
        config::first_under(seq![(key, value)] + rest, k) == if key == k {
            Some(value)
        } else {
            config::first_under(rest, k)
        },
{
    assert((seq![(key, value)] + rest).skip(1) =~= rest);
}

/// What a variable is set to by the file that the setup writes.
spec fn answered(a: AnswersView, token_file: Seq<char>, k: Seq<char>) -> Option<Seq<char>> {
    if k == "FLOONET_DOMAIN"@ {
        Some(a.domain)
    } else if k == "FLOONET_BASE_URL"@ {
        Some("https://"@ + a.domain)
    } else if k == "FLOONET_RELAYS"@ {
        Some("wss://"@ + a.domain)
    } else if k == "FLOONET_NAMES_BIND"@ {
        Some(a.bind_addr)
    } else if k == "FLOONET_NAMES_DB"@ {
        Some(db_path(a.data_dir))
    } else if k == "FLOONET_PAY_MODE"@ {
        Some(a.pay_mode)
    } else if a.pay_mode == "name"@ && k == "FLOONET_NAME_PRICE_GRIN"@ {
        Some(a.price_grin)
    } else if a.pay_mode == "write"@ && k == "FLOONET_WRITE_PRICE_GRIN"@ {
        Some(a.price_grin)
    } else if a.pay_mode != "off"@ && k == "GOBLINPAY_URL"@ {
        Some(a.goblinpay_url)
    } else if a.pay_mode != "off"@ && k == "GOBLINPAY_TOKEN_FILE"@ {
        Some(token_file)
    } else if a.transfers && k == "FLOONET_TRANSFERS"@ {
        Some("true"@)
    } else if a.transfers && k == "FLOONET_GRIN_NODE_URL"@ {
        Some(a.grin_node_url)
    } else {
        None
    }
}

proof fn settings_answer(a: AnswersView, token_file: Seq<char>, k: Seq<char>)
    ensures
        config::first_under(setup_settings(a, token_file), k) == answered(a, token_file, k),
{
    let none = Seq::<(Seq<char>, Seq<char>)>::empty();
    reveal_strlit("name");
    reveal_strlit("write");
    reveal_strlit("off");
    assert("name"@.len() != "write"@.len());
    // The optional settings, from the last to the first.
    let t2 = if a.transfers {
        seq![("FLOONET_GRIN_NODE_URL"@, a.grin_node_url)]
    } else {
        none
    };
    let t1 = transfer_settings(a);
    if a.transfers {
        assert(t2 =~= seq![("FLOONET_GRIN_NODE_URL"@, a.grin_node_url)] + none);
        first_under_first("FLOONET_GRIN_NODE_URL"@, a.grin_node_url, none, k);
        assert(t1 =~= seq![("FLOONET_TRANSFERS"@, "true"@)] + t2);
        first_under_first("FLOONET_TRANSFERS"@, "true"@, t2, k);
    }
    let s1 = server_settings(a, ("GOBLINPAY_TOKEN_FILE"@, token_file)) + t1;
    if a.pay_mode != "off"@ {
        let s2 = seq![("GOBLINPAY_TOKEN_FILE"@, token_file)] + t1;
        first_under_first("GOBLINPAY_TOKEN_FILE"@, token_file, t1, k);
        assert(s1 =~= seq![("GOBLINPAY_URL"@, a.goblinpay_url)] + s2);
        first_under_first("GOBLINPAY_URL"@, a.goblinpay_url, s2, k);
    } else {
        assert(s1 =~= t1);
    }
    let p1 = price_settings(a) + s1;
    if a.pay_mode == "name"@ {
        first_under_first("FLOONET_NAME_PRICE_GRIN"@, a.price_grin, s1, k);
    } else if a.pay_mode == "write"@ {
        first_under_first("FLOONET_WRITE_PRICE_GRIN"@, a.price_grin, s1, k);
    } else {
        assert(p1 =~= s1);
    }
    // The six that are always there.
    let b6 = seq![("FLOONET_PAY_MODE"@, a.pay_mode)] + p1;
    first_under_first("FLOONET_PAY_MODE"@, a.pay_mode, p1, k);
    let b5 = seq![("FLOONET_NAMES_DB"@, db_path(a.data_dir))] + b6;
    first_under_first("FLOONET_NAMES_DB"@, db_path(a.data_dir), b6, k);
    let b4 = seq![("FLOONET_NAMES_BIND"@, a.bind_addr)] + b5;
    first_under_first("FLOONET_NAMES_BIND"@, a.bind_addr, b5, k);
    let b3 = seq![("FLOONET_RELAYS"@, "wss://"@ + a.domain)] + b4;
    first_under_first("FLOONET_RELAYS"@, "wss://"@ + a.domain, b4, k);
    let b2 = seq![("FLOONET_BASE_URL"@, "https://"@ + a.domain)] + b3;
    first_under_first("FLOONET_BASE_URL"@, "https://"@ + a.domain, b3, k);
    first_under_first("FLOONET_DOMAIN"@, a.domain, b2, k);
    assert(setup_settings(a, token_file) =~= seq![("FLOONET_DOMAIN"@, a.domain)] + b2);
}

/// Whether the answers make an authority: a domain without a port or a path,
/// a pay mode that exists, a price and a payment server for what is sold, and
/// a node for the marketplace.
pub open spec fn make_an_authority(a: AnswersView) -> bool {
    &&& a.domain.len() > 0
    &&& !a.domain.contains('/') && !a.domain.contains(':')
    &&& is_pay_mode(a.pay_mode)
    &&& a.pay_mode != "off"@ ==> {
        &&& crate::amount::amount(a.price_grin) matches Ok(n) && n > 0
        &&& text::without_trailing(a.goblinpay_url, '/').len() > 0
        &&& text::trimmed(a.goblinpay_token).len() > 0
    }
    &&& a.transfers ==> a.grin_node_url.len() > 0 && config::words(a.grin_node_url).len() > 0
}

proof fn zero_is_an_amount()
    ensures
        crate::amount::amount("0"@) == Ok::<nat, Seq<char>>(0),
{
    crate::amount::amount_round_trip(0);
    reveal_strlit("0");
    assert(crate::amount::grin_text(0) == crate::digits::decimal(0));
    assert(crate::digits::decimal(0) =~= "0"@);
}

/// The files that the setup writes are ones that the authority starts from: the
/// env file loads with the token file, passes every check, and describes what
/// was answered.
pub proof fn env_file_loads(a: AnswersView, token_file: Seq<char>)
    requires
        are_plain(a),
        make_an_authority(a),
        is_plain(token_file),
        token_file.len() > 0,
    ensures
        ({
            let env = EnvView {
                vars: file_settings(setup_env_text(a, token_file)),
                files: match kept_token(a) {
                    Some(token) => seq![(token_file, Ok(token))],
                    None => Seq::empty(),
                },
            };
            &&& config::load(env) matches config::LoadView::Ready(cfg)
            &&& cfg.domain == a.domain
            &&& cfg.base_url == "https://"@ + a.domain
            &&& cfg.bind_addr == a.bind_addr
            &&& cfg.db_path == db_path(a.data_dir)
            &&& config::pay_mode_of(a.pay_mode) == Ok::<config::PayMode, Seq<char>>(cfg.pay_mode)
            &&& cfg.goblinpay_token == match kept_token(a) {
                Some(token) => text::trimmed(token),
                None => Seq::empty(),
            }
            &&& cfg.allow_transfers == a.transfers
        }),
{
    env_file_reads_back(a, token_file);
    let files = match kept_token(a) {
        Some(token) => seq![(token_file, Ok::<Seq<char>, Seq<char>>(token))],
        None => Seq::empty(),
    };
    let env = EnvView { vars: setup_settings(a, token_file), files };
    prints_of_keys();
    settings_answer(a, token_file, "FLOONET_RESERVED_FILE"@);
    settings_answer(a, token_file, "FLOONET_PAY_MODE"@);
    settings_answer(a, token_file, "FLOONET_NAME_PRICE_GRIN"@);
    settings_answer(a, token_file, "FLOONET_WRITE_PRICE_GRIN"@);
    settings_answer(a, token_file, "GOBLINPAY_TOKEN_FILE"@);
    settings_answer(a, token_file, "GOBLINPAY_WEBHOOK_SECRET_FILE"@);
    settings_answer(a, token_file, "FLOONET_DOMAIN"@);
    settings_answer(a, token_file, "FLOONET_BASE_URL"@);
    settings_answer(a, token_file, "FLOONET_NAMES_BIND"@);
    settings_answer(a, token_file, "FLOONET_NAMES_DB"@);
    settings_answer(a, token_file, "FLOONET_NAME_MIN"@);
    settings_answer(a, token_file, "FLOONET_NAME_MAX"@);
    settings_answer(a, token_file, "GOBLINPAY_URL"@);
    settings_answer(a, token_file, "GOBLINPAY_TOKEN"@);
    settings_answer(a, token_file, "FLOONET_TRANSFERS"@);
    settings_answer(a, token_file, "FLOONET_GRIN_NODE_URL"@);
    zero_is_an_amount();
    reveal_strlit("name");
    reveal_strlit("write");
    reveal_strlit("off");
    assert("name"@.len() == 4 && "write"@.len() == 5 && "off"@.len() == 3);
    assert(config::var(env, "FLOONET_RESERVED_FILE"@) is None);
    trim_start_shortens(a.goblinpay_token);
    trim_end_shortens(text::trim_start(a.goblinpay_token));
    assert(a.pay_mode != "off"@ ==> kept_token(a) == Some(a.goblinpay_token));
    assert(a.pay_mode != "off"@ ==> config::file_var(env, "GOBLINPAY_TOKEN_FILE"@)
        == config::FileVar::Text(a.goblinpay_token));
    assert(a.pay_mode == "off"@ ==> config::var(env, "GOBLINPAY_TOKEN_FILE"@) is None);
    reveal_strlit("");
    assert(""@ =~= Seq::<char>::empty());
    assert(config::var(env, "GOBLINPAY_WEBHOOK_SECRET_FILE"@) is None);
    assert(config::var(env, "FLOONET_NAME_MIN"@) is None);
    assert(config::var(env, "FLOONET_NAME_MAX"@) is None);
    // The base URL is the domain's.
    let host = a.domain;
    let url = "https://"@ + a.domain;
    assert(url.take("https://"@.len() as int) =~= "https://"@);
    assert(url.skip("https://"@.len() as int) =~= host);
    text::find_is_first(host, '/');
    text::find_is_first(host, ':');
    assert(host.take(host.len() as int) =~= host);
    assert(config::bare_host(host) == host);
    assert(config::load(env) is Ready);
}

/// The first of the files that exists is loaded, and none behind it is looked
/// for; while none is known to exist, the next is looked for, and where none
/// does, none is loaded.
pub proof fn first_existing_file_counts(files: Seq<Seq<char>>, exist: Seq<bool>, n: int)
    requires
        0 <= n <= files.len(),
        n <= exist.len(),
        forall|i: int| 0 <= i < n ==> !#[trigger] exist[i],
    ensures
        n == files.len() ==> search(files, exist) == Search::<Seq<char>>::Nothing,
        n < files.len() && n == exist.len() ==> search(files, exist) == Search::Probe(files[n]),
        n < files.len() && n < exist.len() && exist[n] ==> search(files, exist) == Search::Load(
            files[n],
        ),
    decreases n,
{
    if n > 0 {
        assert(!exist[0]);
        let rest = exist.skip(1);
        assert forall|i: int| 0 <= i < n - 1 implies !#[trigger] rest[i] by {
            assert(rest[i] == exist[i + 1]);
        }
        first_existing_file_counts(files.skip(1), rest, n - 1);
    }
}

/// The file that is named for it comes first, then the system's, then the
/// working directory's; the answers go to the first of them that can be written.
pub proof fn env_files_have_their_order(env: EnvView, writable: bool)
    ensures
        match config::first_under(env.vars, "FLOONET_ENV_FILE"@) {
            Some(path) => path.len() > 0 ==> candidates(env) == seq![
                path,
                "/etc/floonet-authority.env"@,
                ".env"@,
            ] && target(env, Some(writable)) == Some(path) && target(env, None) == Some(path),
            None => candidates(env) == seq!["/etc/floonet-authority.env"@, ".env"@] && target(
                env,
                None,
            ) is None && target(env, Some(writable)) == Some(
                if writable {
                    "/etc/floonet-authority.env"@
                } else {
                    ".env"@
                },
            ),
        },
{
    let usual = seq!["/etc/floonet-authority.env"@, ".env"@];
    match config::first_under(env.vars, "FLOONET_ENV_FILE"@) {
        Some(path) => {
            assert(seq![path] + usual =~= seq![path, "/etc/floonet-authority.env"@, ".env"@]);
        },
        None => {},
    }
}

/// `setup` asks where nothing is configured, or with `--reconfigure`; without it
/// the questions are asked on a terminal where nothing is configured, and in no
/// other case.
pub proof fn questions_are_asked_when_due(args: Seq<Seq<char>>, present: bool, interactive: bool)
    ensures
        args.len() > 0 && args[0] == "setup"@ && !present ==> start_of(args, present, interactive)
            == Start::Ask,
        args.len() > 0 && args[0] == "setup"@ && present && args.contains("--reconfigure"@)
            ==> start_of(args, present, interactive) == Start::Ask,
        args.len() > 0 && args[0] == "setup"@ && present && !args.contains("--reconfigure"@)
            ==> start_of(args, present, interactive) == Start::Configured,
        (args.len() == 0 || args[0] != "setup"@) && !present && interactive ==> start_of(
            args,
            present,
            interactive,
        ) == Start::Ask,
        (args.len() == 0 || args[0] != "setup"@) && (present || !interactive) ==> start_of(
            args,
            present,
            interactive,
        ) == Start::Serve,
{
}

/// One layer of quotes comes off a value that starts and ends with the same one;
/// any other value stays as it is.
pub proof fn one_layer_of_quotes_comes_off(v: Seq<char>, q: char)
    ensures
        q == '"' || q == '\'' ==> unquoted(seq![q] + v + seq![q]) == v,
        v.len() < 2 || v[0] != v.last() || (v[0] != '"' && v[0] != '\'') ==> unquoted(v) == v,
{
    let s = seq![q] + v + seq![q];
    assert(s[0] == q && s.last() == q);
    assert(s.subrange(1, s.len() - 1) =~= v);
}

/// A line sets what stands before its first `=` to what stands behind it, both
/// trimmed and the value without quotes; `export ` before it does not count. A
/// line that is blank, a comment, or without a key sets nothing.
pub proof fn lines_set_variables(raw: Seq<char>, key: Seq<char>, value: Seq<char>)
    ensures
        text::trimmed(raw).len() == 0 || text::trimmed(raw)[0] == '#' ==> setting(raw) is None,
        text::trimmed(raw).len() > 0 && text::trimmed(raw)[0] != '#' && !key.contains('=') && (
        text::trimmed(raw) == "export "@ + (key + seq!['='] + value) || (text::trimmed(raw) == key
            + seq!['='] + value && !"export "@.is_prefix_of(text::trimmed(raw)))) ==> setting(raw)
            == if text::trimmed(key).len() > 0 {
            Some((text::trimmed(key), unquoted(text::trimmed(value))))
        } else {
            None
        },
{
    let line = text::trimmed(raw);
    let rest = key + seq!['='] + value;
    text::prefixes_come_off("export "@, rest, line);
    if !key.contains('=') {
        text::splits_at_the_first(key, '=', value);
    }
}

/// The lines of a file are read one by one, in order.
pub proof fn files_are_read_line_by_line(lines: Seq<Seq<char>>, line: Seq<char>, file: Seq<char>)
    ensures
        settings_of(Seq::<Seq<char>>::empty()) == Seq::<(Seq<char>, Seq<char>)>::empty(),
        setting(line) is None ==> settings_of(lines.push(line)) == settings_of(lines),
        setting(line) matches Some(pair) ==> settings_of(lines.push(line)) == settings_of(lines).push(
            pair,
        ),
        file_settings(file) == settings_of(text::pieces(file, '\n')),
{
    assert(lines.push(line).drop_last() =~= lines);
}

/// The database stands in the data directory.
pub proof fn database_stands_in_its_directory(dir: Seq<char>)
    ensures
        db_path(dir + "/"@) == dir + "/"@ + "names.db"@,
        dir.len() > 0 && dir.last() != '/' ==> db_path(dir) == dir + "/names.db"@,
        db_path(Seq::<char>::empty()) == "names.db"@,
{
    reveal_strlit("/");
    assert((dir + "/"@).last() == '/');
    assert(Seq::<char>::empty() + "names.db"@ =~= "names.db"@);
}

/// The answers become settings, one for one: those of every authority, those of
/// what is sold where anything is, and those of the marketplace where it is
/// enabled.
pub proof fn answers_become_settings(a: AnswersView, secret: (Seq<char>, Seq<char>))
    ensures
        ({
            let all = settings_with(a, secret);
            let base = seq![
                ("FLOONET_DOMAIN"@, a.domain),
                ("FLOONET_BASE_URL"@, "https://"@ + a.domain),
                ("FLOONET_RELAYS"@, "wss://"@ + a.domain),
                ("FLOONET_NAMES_BIND"@, a.bind_addr),
                ("FLOONET_NAMES_DB"@, db_path(a.data_dir)),
                ("FLOONET_PAY_MODE"@, a.pay_mode),
            ];
            let market = if a.transfers {
                seq![("FLOONET_TRANSFERS"@, "true"@), ("FLOONET_GRIN_NODE_URL"@, a.grin_node_url)]
            } else {
                Seq::empty()
            };
            &&& a.pay_mode == "off"@ ==> all == base + market
            &&& a.pay_mode == "name"@ ==> all == base + seq![
                ("FLOONET_NAME_PRICE_GRIN"@, a.price_grin),
                ("GOBLINPAY_URL"@, a.goblinpay_url),
                secret,
            ] + market
            &&& a.pay_mode == "write"@ ==> all == base + seq![
                ("FLOONET_WRITE_PRICE_GRIN"@, a.price_grin),
                ("GOBLINPAY_URL"@, a.goblinpay_url),
                secret,
            ] + market
        }),
        answer_settings(a) == settings_with(a, ("GOBLINPAY_TOKEN"@, a.goblinpay_token)),
        setup_settings(a, secret.1) == settings_with(a, ("GOBLINPAY_TOKEN_FILE"@, secret.1)),
{
    reveal_strlit("off");
    reveal_strlit("name");
    reveal_strlit("write");
    assert("off"@.len() == 3 && "name"@.len() == 4 && "write"@.len() == 5);
}

/// A blank line takes the default, and any other counts as it is, trimmed. Only
/// `y` and `yes`, in either case, say yes.
pub proof fn blank_lines_take_the_default(line: Seq<char>, default: Seq<char>)
    ensures
        text::trimmed(line).len() == 0 ==> answer(line, default) == default,
        text::trimmed(line).len() > 0 ==> answer(line, default) == text::trimmed(line),
        text::trimmed(line).len() == 0 ==> !says_yes(line),
        says_yes(line) ==> text::lower(text::trimmed(text::trimmed(line))) == "y"@ || text::lower(
            text::trimmed(text::trimmed(line)),
        ) == "yes"@,
        text::trimmed(line).len() > 0 && (text::lower(text::trimmed(text::trimmed(line))) == "y"@
            || text::lower(text::trimmed(text::trimmed(line))) == "yes"@) ==> says_yes(line),
{
    reveal_strlit("y/N");
    reveal_strlit("y");
    reveal_strlit("yes");
    let d = "y/N"@;
    assert forall|i: int| 0 <= i < d.len() implies !text::is_space(#[trigger] d[i]) by {}
    crate::amount::no_space_trimmed(d);
    let l = text::lower(d);
    assert(l.len() == 3 && l[1] == '/');
    assert("yes"@[1] == 'e');
    assert("y"@.len() == 1);
}

/// A pay mode is taken from the first line that names one, after up to four that
/// do not.
proof fn pay_mode_is_taken(lines: Seq<Seq<char>>, at: int, left: nat, k: nat, mode: Seq<char>)
    requires
        0 <= at,
        k < left,
        at + k < lines.len(),
        forall|i: int|
            at <= i < at + k ==> !is_pay_mode(text::lower(answer(#[trigger] lines[i], "off"@))),
        mode == text::lower(answer(lines[at + k], "off"@)),
        is_pay_mode(mode),
    ensures
        pay_mode(lines, at, left) == (Mode::Settled { mode, read: at + k + 1, gave_up: false }),
    decreases k,
{
    if k > 0 {
        assert(!is_pay_mode(text::lower(answer(lines[at], "off"@))));
        pay_mode_is_taken(lines, at + 1, (left - 1) as nat, (k - 1) as nat, mode);
    }
}

/// The setup ends with what was answered: the domain, the address and the
/// directory from the first three lines; the pay mode from the first of up to
/// five that names one; where anything is sold, its price, server and token from
/// the three behind it; then whether to enable the marketplace and, if so, the
/// node. Each blank line takes its default.
pub proof fn setup_ends_with_the_answers(lines: Seq<Seq<char>>, k: int, mode: Seq<char>)
    requires
        0 <= k < 5,
        lines.len() >= 4 + k,
        forall|i: int|
            3 <= i < 3 + k ==> !(text::lower(answer(#[trigger] lines[i], "off"@)) == "off"@
                || text::lower(answer(lines[i], "off"@)) == "name"@ || text::lower(
                answer(lines[i], "off"@),
            ) == "write"@),
        mode == text::lower(answer(lines[3 + k], "off"@)),
        mode == "off"@ || mode == "name"@ || mode == "write"@,
    ensures
        ({
            let n = if mode == "off"@ {
                4 + k
            } else {
                7 + k
            };
            lines.len() > n && (!says_yes(lines[n]) || lines.len() > n + 1) ==> wizard(lines)
                == WizardView::Done(
                AnswersView {
                    domain: answer(lines[0], "floonet.example"@),
                    bind_addr: answer(lines[1], "127.0.0.1:8191"@),
                    data_dir: answer(lines[2], "/var/lib/floonet-authority"@),
                    pay_mode: mode,
                    price_grin: if mode == "off"@ {
                        Seq::empty()
                    } else {
                        answer(lines[4 + k], "1"@)
                    },
                    goblinpay_url: if mode == "off"@ {
                        Seq::empty()
                    } else {
                        answer(lines[5 + k], "http://127.0.0.1:8192"@)
                    },
                    goblinpay_token: if mode == "off"@ {
                        Seq::empty()
                    } else {
                        answer(lines[6 + k], ""@)
                    },
                    transfers: says_yes(lines[n]),
                    grin_node_url: if says_yes(lines[n]) {
                        answer(lines[n + 1], "https://api.grin.money/v2/foreign"@)
                    } else {
                        Seq::empty()
                    },
                },
            )
        }),
        mode != "off"@ && lines.len() == 6 + k ==> wizard(lines) is Hide,
        mode != "off"@ && 4 + k <= lines.len() <= 5 + k ==> wizard(lines) is Show,
{
    assert forall|i: int| 3 <= i < 3 + k implies !is_pay_mode(
        text::lower(answer(#[trigger] lines[i], "off"@)),
    ) by {}
    pay_mode_is_taken(lines, 3, 5, k as nat, mode);
}

/// Answers, the setup and the search are seen with what they hold.
pub proof fn setup_views_show_the_fields(a: Answers, s: String)
    ensures
        a@.domain == a.domain@ && a@.bind_addr == a.bind_addr@ && a@.data_dir == a.data_dir@,
        a@.pay_mode == a.pay_mode@ && a@.price_grin == a.price_grin@,
        a@.goblinpay_url == a.goblinpay_url@ && a@.goblinpay_token == a.goblinpay_token@,
        a@.transfers == a.transfers && a@.grin_node_url == a.grin_node_url@,
        (Wizard::Show(s))@ == WizardView::Show(s@),
        (Wizard::Hide(s))@ == WizardView::Hide(s@),
        (Wizard::Done(a))@ == WizardView::Done(a@),
        search_view(Search::Probe(s)) == Search::Probe(s@),
        search_view(Search::Load(s)) == Search::Load(s@),
        search_view(Search::Nothing) == Search::<Seq<char>>::Nothing,
{
}

/// Settings are written one on a line, behind two lines of comment and a blank
/// one.
pub proof fn settings_are_written_one_on_a_line(
    list: Seq<(Seq<char>, Seq<char>)>,
    key: Seq<char>,
    value: Seq<char>,
    a: AnswersView,
    token_file: Seq<char>,
)
    ensures
        written(Seq::<(Seq<char>, Seq<char>)>::empty()) == Seq::<char>::empty(),
        written(list.push((key, value))) == written(list) + key + "="@ + value + "\n"@,
        file_text(list)
            == "# Generated by the floonet-name-authority first-run setup wizard.\n"@
            + "# Edit freely; every key maps to a FLOONET_* variable (see .env.example).\n\n"@
            + written(list),
        env_text(a) == file_text(settings_with(a, ("GOBLINPAY_TOKEN"@, a.goblinpay_token))),
        setup_env_text(a, token_file) == file_text(
            settings_with(a, ("GOBLINPAY_TOKEN_FILE"@, token_file)),
        ),
        token_path(token_file) == token_file + ".token"@,
        a.pay_mode == "off"@ || a.goblinpay_token.len() == 0 ==> kept_token(a) is None,
        a.pay_mode != "off"@ && a.goblinpay_token.len() > 0 ==> kept_token(a) == Some(
            a.goblinpay_token,
        ),
{
    written_push(list, key, value);
}

/// The questions come in order, each with its default: three for every
/// authority, then the pay mode, which is asked again where it is none; those for
/// what is sold; and those for the marketplace.
pub proof fn questions_come_in_order(lines: Seq<Seq<char>>, mode: Seq<char>)
    ensures
        lines.len() == 1 ==> wizard(lines) == WizardView::Show(
            "HTTP bind address"@ + " ["@ + "127.0.0.1:8191"@ + "]: "@,
        ),
        lines.len() == 2 ==> wizard(lines) == WizardView::Show(
            "Data directory (SQLite database lives here)"@ + " ["@ + "/var/lib/floonet-authority"@
                + "]: "@,
        ),
        lines.len() >= 4 && mode == text::lower(answer(lines[3], "off"@)) ==> {
            &&& lines.len() == 4 && mode == "name"@ ==> wizard(lines) == WizardView::Show(
                "Price to claim a name, in GRIN"@ + " ["@ + "1"@ + "]: "@,
            )
            &&& lines.len() == 4 && mode == "write"@ ==> wizard(lines) == WizardView::Show(
                "Price for write access, in GRIN"@ + " ["@ + "1"@ + "]: "@,
            )
            &&& lines.len() == 5 && (mode == "name"@ || mode == "write"@) ==> wizard(lines)
                == WizardView::Show(
                "GoblinPay server URL"@ + " ["@ + "http://127.0.0.1:8192"@ + "]: "@,
            )
            &&& lines.len() == 6 && (mode == "name"@ || mode == "write"@) ==> wizard(lines)
                == WizardView::Hide("GoblinPay API token"@ + ": "@)
            &&& lines.len() == 5 && mode == "off"@ && says_yes(lines[4]) ==> wizard(lines)
                == WizardView::Show(
                "Grin node foreign-API URL"@ + " ["@ + "https://api.grin.money/v2/foreign"@
                    + "]: "@,
            )
        },
{
    reveal_strlit("");
    reveal_strlit("1");
    reveal_strlit("127.0.0.1:8191");
    reveal_strlit("/var/lib/floonet-authority");
    reveal_strlit("http://127.0.0.1:8192");
    reveal_strlit("https://api.grin.money/v2/foreign");
    reveal_strlit("off");
    reveal_strlit("name");
    reveal_strlit("write");
    assert("off"@.len() == 3 && "name"@.len() == 4 && "write"@.len() == 5);
    if lines.len() >= 4 && mode == text::lower(answer(lines[3], "off"@)) && is_pay_mode(mode) {
        pay_mode_is_taken(lines, 3, 5, 0, mode);
    }
}

/// Five answers that name no pay mode leave the authority free, and the setup
/// goes on.
pub proof fn nonsense_leaves_the_authority_free(lines: Seq<Seq<char>>)
    requires
        lines.len() >= 8,
        forall|i: int|
            3 <= i < 8 ==> !(text::lower(answer(#[trigger] lines[i], "off"@)) == "off"@ || text::lower(
                answer(lines[i], "off"@),
            ) == "name"@ || text::lower(answer(lines[i], "off"@)) == "write"@),
    ensures
        lines.len() == 8 ==> wizard(lines) is Show,
        wizard(lines) matches WizardView::Done(a) ==> a.pay_mode == "off"@ && a.transfers == says_yes(
            lines[8],
        ) && a.goblinpay_token.len() == 0,
        lines.len() > 8 && !says_yes(lines[8]) ==> wizard(lines) is Done,
{
    assert(!is_pay_mode(text::lower(answer(lines[3], "off"@))));
    assert(!is_pay_mode(text::lower(answer(lines[4], "off"@))));
    assert(!is_pay_mode(text::lower(answer(lines[5], "off"@))));
    assert(!is_pay_mode(text::lower(answer(lines[6], "off"@))));
    assert(!is_pay_mode(text::lower(answer(lines[7], "off"@))));
    assert(pay_mode(lines, 8, 0) == (Mode::Settled { mode: "off"@, read: 8, gave_up: true }));
    assert(pay_mode(lines, 7, 1) == pay_mode(lines, 8, 0));
    assert(pay_mode(lines, 6, 2) == pay_mode(lines, 7, 1));
    assert(pay_mode(lines, 5, 3) == pay_mode(lines, 6, 2));
    assert(pay_mode(lines, 4, 4) == pay_mode(lines, 5, 3));
    assert(pay_mode(lines, 3, 5) == pay_mode(lines, 4, 4));
}

} // verus!
