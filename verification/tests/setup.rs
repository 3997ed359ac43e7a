//! The first-run setup: when it runs, what it asks, and the file it writes.

use floonet_name_authority::config::{Config, Env, Load};
use floonet_name_authority::setup::{
    collect_answers, config_present, db_path_in, decide_start, decide_wizard, env_file_candidates,
    load_env_file, load_first_existing, parse_env_file, render_env, setup_files, token_file_for,
    wizard_target, Answers, Search, Start, Wizard, DEFAULT_ENV_FILE,
};

fn env(vars: &[(&str, &str)]) -> Env {
    Env {
        vars: vars.iter().map(|(k, v)| (k.to_string(), v.to_string())).collect(),
        files: Vec::new(),
    }
}

/// Feed canned input to the questions; past its end every line is blank.
fn run(input: &str) -> (Answers, Vec<String>) {
    let mut source = input.lines();
    let mut lines: Vec<String> = Vec::new();
    let mut shown = Vec::new();
    loop {
        match collect_answers(&lines) {
            Wizard::Show(text) | Wizard::Hide(text) => {
                shown.push(text);
                lines.push(source.next().map(|l| format!("{l}\n")).unwrap_or_default());
            }
            Wizard::Done(a) => return (a, shown),
        }
    }
}

#[test]
fn config_present_never_runs_wizard() {
    assert!(!decide_wizard(true, true), "present + tty must skip wizard");
    assert!(!decide_wizard(true, false), "present + no tty must skip wizard");
}

#[test]
fn wizard_only_when_absent_and_interactive() {
    assert!(decide_wizard(false, true), "absent + tty runs wizard");
    assert!(!decide_wizard(false, false), "absent + no tty stays headless");
}

#[test]
fn parse_env_file_handles_comments_quotes_and_export() {
    let text = "\
# a comment
FLOONET_DOMAIN=names.example

  export FLOONET_BASE_URL=https://names.example
QUOTED=\"a value\"
SINGLE='b value'
# trailing comment
BLANKVAL=
=nokey
";
    let pairs = parse_env_file(text);
    assert_eq!(
        pairs,
        vec![
            ("FLOONET_DOMAIN".to_string(), "names.example".to_string()),
            ("FLOONET_BASE_URL".to_string(), "https://names.example".to_string()),
            ("QUOTED".to_string(), "a value".to_string()),
            ("SINGLE".to_string(), "b value".to_string()),
            ("BLANKVAL".to_string(), String::new()),
        ]
    );
}

#[test]
fn render_env_derives_base_url_and_relays_from_domain() {
    let a = Answers {
        domain: "names.example".into(),
        bind_addr: "127.0.0.1:8191".into(),
        data_dir: "/var/lib/floonet-authority".into(),
        pay_mode: "off".into(),
        price_grin: String::new(),
        goblinpay_url: String::new(),
        goblinpay_token: String::new(),
        transfers: false,
        grin_node_url: String::new(),
    };
    let body = render_env(&a);
    assert!(body.contains("FLOONET_DOMAIN=names.example\n"));
    assert!(body.contains("FLOONET_BASE_URL=https://names.example\n"));
    assert!(body.contains("FLOONET_RELAYS=wss://names.example\n"));
    assert!(body.contains("FLOONET_NAMES_DB=/var/lib/floonet-authority/names.db\n"));
    assert!(body.contains("FLOONET_PAY_MODE=off\n"));
    assert!(!body.contains("GOBLINPAY_URL"));
    assert!(!body.contains("FLOONET_TRANSFERS"));
}

#[test]
fn render_env_paid_name_and_transfers() {
    let a = Answers {
        domain: "names.example".into(),
        bind_addr: "127.0.0.1:8191".into(),
        data_dir: "/data".into(),
        pay_mode: "name".into(),
        price_grin: "1".into(),
        goblinpay_url: "http://127.0.0.1:8192".into(),
        goblinpay_token: "tok".into(),
        transfers: true,
        grin_node_url: "https://api.grin.money/v2/foreign".into(),
    };
    let body = render_env(&a);
    assert!(body.contains("FLOONET_PAY_MODE=name\n"));
    assert!(body.contains("FLOONET_NAME_PRICE_GRIN=1\n"));
    assert!(body.contains("GOBLINPAY_URL=http://127.0.0.1:8192\n"));
    assert!(body.contains("GOBLINPAY_TOKEN=tok\n"));
    assert!(body.contains("FLOONET_TRANSFERS=true\n"));
    assert!(body.contains("FLOONET_GRIN_NODE_URL=https://api.grin.money/v2/foreign\n"));
    // write-only key must not leak into a name-mode file.
    assert!(!body.contains("FLOONET_WRITE_PRICE_GRIN"));
}

#[test]
fn db_path_joins_names_db() {
    assert_eq!(db_path_in("/var/lib/floonet-authority"), "/var/lib/floonet-authority/names.db");
}

#[test]
fn db_path_keeps_a_separator() {
    assert_eq!(db_path_in("/data/"), "/data/names.db");
    assert_eq!(db_path_in(""), "names.db");
}

#[test]
fn collect_answers_uses_input_then_defaults() {
    // domain typed; bind + data-dir Enter (defaults); pay mode off; transfers no.
    let (a, shown) = run("names.example\n\n\noff\nn\n");
    assert_eq!(a.domain, "names.example");
    assert_eq!(a.bind_addr, "127.0.0.1:8191");
    assert_eq!(a.data_dir, "/var/lib/floonet-authority");
    assert_eq!(a.pay_mode, "off");
    assert!(!a.transfers);
    assert_eq!(
        shown.concat(),
        "\nFloonet name authority: first-run setup\n\
         No configuration found. A few questions and we are running.\n\
         Press Enter to accept each [default].\n\n\
         Domain for names (the @domain in name@domain) [floonet.example]: \
         HTTP bind address [127.0.0.1:8191]: \
         Data directory (SQLite database lives here) [/var/lib/floonet-authority]: \
         \nCharging GRIN is optional; leave as `off` for a free authority.\n\
         Pay mode (off/name/write) [off]: \
         \nName transfers are the optional non-custodial name marketplace.\n\
         Enable name transfers? [y/N]: "
    );
}

#[test]
fn every_question_is_asked() {
    let (a, shown) = run("d\nb\n/dir\nWRITE\n2.5\nhttp://pay\nsecret\nYes\nhttp://node\n");
    assert_eq!(a.pay_mode, "write");
    assert_eq!(a.price_grin, "2.5");
    assert_eq!(a.goblinpay_url, "http://pay");
    assert_eq!(a.goblinpay_token, "secret");
    assert!(a.transfers);
    assert_eq!(a.grin_node_url, "http://node");
    assert_eq!(shown.len(), 9);
    assert_eq!(shown[4], "Price for write access, in GRIN [1]: ");
    assert_eq!(shown[6], "GoblinPay API token: ");
    assert_eq!(shown[8], "Grin node foreign-API URL [https://api.grin.money/v2/foreign]: ");
}

#[test]
fn nonsense_falls_back_to_free() {
    let (a, shown) = run("\n\n\n1\n2\n3\n4\n5\ny\n\n");
    assert_eq!(a.pay_mode, "off");
    assert!(a.transfers);
    assert_eq!(a.grin_node_url, "https://api.grin.money/v2/foreign");
    assert_eq!(
        shown[4],
        "  Please answer one of: off, name, write\nPay mode (off/name/write) [off]: "
    );
    assert_eq!(
        shown[8],
        "  Please answer one of: off, name, write\n\
         \nName transfers are the optional non-custodial name marketplace.\n\
         Enable name transfers? [y/N]: "
    );
}

#[test]
fn setup_ends_on_an_empty_input() {
    let (a, shown) = run("");
    assert_eq!(shown.len(), 5);
    assert_eq!(a.domain, "floonet.example");
    assert!(!a.transfers);
}

#[test]
fn run_wizard_writes_loadable_env_file() {
    let (answers, _) = run("names.example\n0.0.0.0:9000\n/tmp/floonet-data\noff\nn\n");
    let files = setup_files(&answers, "/tmp/floonet.env.token");
    assert_eq!(files.token, None, "a free authority holds no secret");
    let pairs = parse_env_file(&files.env);
    let get = |k: &str| pairs.iter().find(|(kk, _)| kk == k).map(|(_, v)| v.clone());

    assert_eq!(get("FLOONET_DOMAIN").as_deref(), Some("names.example"));
    assert_eq!(get("FLOONET_BASE_URL").as_deref(), Some("https://names.example"));
    assert_eq!(get("FLOONET_RELAYS").as_deref(), Some("wss://names.example"));
    assert_eq!(get("FLOONET_NAMES_BIND").as_deref(), Some("0.0.0.0:9000"));
    assert_eq!(get("FLOONET_NAMES_DB").as_deref(), Some("/tmp/floonet-data/names.db"));
}

#[test]
fn written_file_starts_the_authority() {
    let (answers, _) = run("names.example\n\n/d\nname\n1.5\nhttp://pay\ntok\ny\n\n");
    let files = setup_files(&answers, "/e.token");
    let mut e = Env { vars: parse_env_file(&files.env), files: Vec::new() };
    assert!(config_present(&e));
    assert!(matches!(Config::from_env(&e), Load::Read(path) if path == "/e.token"));
    e.files.push(("/e.token".to_string(), Ok(files.token.unwrap())));
    match Config::from_env(&e) {
        Load::Ready(c) => {
            assert_eq!(c.goblinpay_token, "tok");
            assert_eq!(c.domain, "names.example");
            assert_eq!(c.name_price_nanogrin, 1_500_000_000);
            assert!(c.allow_transfers);
        }
        _ => panic!("the written file must load"),
    }
}

/// The GoblinPay token never lands in the env file.
#[test]
fn token_stays_out_of_the_env_file() {
    let (answers, _) = run("\n\n\nname\n1\nhttps://pay.example\ntok-42\nn\n");
    assert_eq!(answers.goblinpay_token, "tok-42");
    let path = token_file_for("/tmp/t.env");
    assert_eq!(path, "/tmp/t.env.token");
    let files = setup_files(&answers, &path);
    assert!(!files.env.contains("tok-42"));
    assert!(!files.env.contains("GOBLINPAY_TOKEN="));
    assert_eq!(files.token.as_deref(), Some("tok-42"));
    assert_eq!(
        files.env,
        "# Generated by the floonet-name-authority first-run setup wizard.\n\
         # Edit freely; every key maps to a FLOONET_* variable (see .env.example).\n\n\
         FLOONET_DOMAIN=floonet.example\n\
         FLOONET_BASE_URL=https://floonet.example\n\
         FLOONET_RELAYS=wss://floonet.example\n\
         FLOONET_NAMES_BIND=127.0.0.1:8191\n\
         FLOONET_NAMES_DB=/var/lib/floonet-authority/names.db\n\
         FLOONET_PAY_MODE=name\n\
         FLOONET_NAME_PRICE_GRIN=1\n\
         GOBLINPAY_URL=https://pay.example\n\
         GOBLINPAY_TOKEN_FILE=/tmp/t.env.token\n"
    );
    // Another token, the same env file.
    let other = Answers { goblinpay_token: "else".into(), ..answers.clone() };
    assert_eq!(setup_files(&other, &path).env, files.env);
    let none = Answers { goblinpay_token: String::new(), ..answers };
    assert_eq!(setup_files(&none, &path).token, None);
}

#[test]
fn only_the_token_is_typed_hidden() {
    let typed = ["d", "b", "/dir", "write", "2.5", "http://pay", "secret", "y", "http://node"];
    for n in 0..typed.len() {
        let lines: Vec<String> = typed[..n].iter().map(|s| s.to_string()).collect();
        match collect_answers(&lines) {
            Wizard::Hide(text) => assert_eq!((n, text.as_str()), (6, "GoblinPay API token: ")),
            Wizard::Show(_) => assert_ne!(n, 6),
            Wizard::Done(_) => panic!("too few lines"),
        }
    }
}

#[test]
fn load_env_file_is_non_overriding() {
    let e = env(&[("PRESET", "original")]);
    let set = load_env_file(&e, "UNSET=from_file\nPRESET=from_file\n");
    assert_eq!(set.len(), 1, "only the previously unset var should be set");
    assert_eq!(set, vec![("UNSET".to_string(), "from_file".to_string())]);
    // The first setting of a variable counts.
    let set = load_env_file(&e, "A=1\nA=2\nB=3\n");
    assert_eq!(
        set,
        vec![("A".to_string(), "1".to_string()), ("B".to_string(), "3".to_string())]
    );
}

#[test]
fn env_files_are_tried_in_order() {
    assert_eq!(
        env_file_candidates(&env(&[])),
        vec![DEFAULT_ENV_FILE.to_string(), ".env".to_string()]
    );
    let e = env(&[("FLOONET_ENV_FILE", "/custom")]);
    let files = env_file_candidates(&e);
    assert_eq!(files, vec!["/custom", "/etc/floonet-authority.env", ".env"]);
    assert!(matches!(load_first_existing(&files, &vec![]), Search::Probe(p) if p == "/custom"));
    assert!(matches!(
        load_first_existing(&files, &vec![false]),
        Search::Probe(p) if p == "/etc/floonet-authority.env"
    ));
    assert!(matches!(
        load_first_existing(&files, &vec![false, true]),
        Search::Load(p) if p == "/etc/floonet-authority.env"
    ));
    assert!(matches!(
        load_first_existing(&files, &vec![false, false, false]),
        Search::Nothing
    ));
}

#[test]
fn wizard_target_follows_the_conventions() {
    let e = env(&[("FLOONET_ENV_FILE", "/custom")]);
    assert_eq!(wizard_target(&e, None).as_deref(), Some("/custom"));
    let e = env(&[("FLOONET_ENV_FILE", "")]);
    assert_eq!(wizard_target(&e, None), None);
    assert_eq!(wizard_target(&e, Some(true)).as_deref(), Some(DEFAULT_ENV_FILE));
    assert_eq!(wizard_target(&e, Some(false)).as_deref(), Some(".env"));
    assert!(!config_present(&env(&[("FLOONET_DOMAIN", "")])));
}

#[test]
fn setup_command_asks_outright() {
    let args = |list: &[&str]| list.iter().map(|s| s.to_string()).collect::<Vec<String>>();
    assert_eq!(decide_start(&args(&[]), false, true), Start::Ask);
    assert_eq!(decide_start(&args(&[]), true, true), Start::Serve);
    assert_eq!(decide_start(&args(&[]), false, false), Start::Serve);
    assert_eq!(decide_start(&args(&["setup"]), false, false), Start::Ask);
    assert_eq!(decide_start(&args(&["setup"]), true, true), Start::Configured);
    assert_eq!(decide_start(&args(&["setup", "--reconfigure"]), true, true), Start::Ask);
    assert_eq!(decide_start(&args(&["--reconfigure"]), true, true), Start::Serve);
}
