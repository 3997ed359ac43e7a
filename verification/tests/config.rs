//! The configuration: amounts, validation, loading and the startup line.

use floonet_name_authority::config::{
    grin_to_nanogrin, nanogrin_to_grin, reserved_names, split_words, Config, Env, Load, PayMode,
};

fn base() -> Config {
    Config::for_test()
}

fn env(vars: &[(&str, &str)]) -> Env {
    Env {
        vars: vars.iter().map(|(k, v)| (k.to_string(), v.to_string())).collect(),
        files: Vec::new(),
    }
}

fn ready(e: &Env) -> Config {
    match Config::from_env(e) {
        Load::Ready(c) => c,
        Load::Refused(why) => panic!("refused: {why}"),
        Load::Read(path) => panic!("wants {path}"),
    }
}

fn refused(e: &Env) -> String {
    match Config::from_env(e) {
        Load::Refused(why) => why,
        Load::Ready(_) => panic!("ready"),
        Load::Read(path) => panic!("wants {path}"),
    }
}

#[test]
fn rejects_non_https_base_url() {
    let mut c = base();
    c.base_url = "http://floonet.example".into();
    assert!(c.validate().is_err());
    assert_eq!(
        c.validate().unwrap_err(),
        "FLOONET_BASE_URL must start with https:// (got `http://floonet.example`)"
    );
}

#[test]
fn rejects_base_url_domain_mismatch() {
    let mut c = base();
    c.base_url = "https://example.com".into();
    assert!(c.validate().is_err());
    assert_eq!(
        c.validate().unwrap_err(),
        "FLOONET_BASE_URL host `example.com` does not match FLOONET_DOMAIN `floonet.example`"
    );
}

#[test]
fn accepts_matching_base_url_with_port() {
    let mut c = base();
    c.domain = "names.example".into();
    c.base_url = "https://names.example:8443".into();
    assert!(c.validate().is_ok());
    c.base_url = "https://names.example:8443/path".into();
    assert!(c.validate().is_ok());
}

#[test]
fn rejects_bad_name_bounds() {
    let mut c = base();
    c.name_min = 10;
    c.name_max = 5;
    assert!(c.validate().is_err());
    assert_eq!(c.validate().unwrap_err(), "invalid name length bounds: min=10 max=5");
    c.name_min = 0;
    assert_eq!(c.validate().unwrap_err(), "invalid name length bounds: min=0 max=5");
}

#[test]
fn paid_mode_requires_goblinpay_and_price() {
    let mut c = base();
    c.pay_mode = PayMode::Name;
    assert!(c.validate().is_err()); // no url
    c.goblinpay_url = "https://pay.example".into();
    assert!(c.validate().is_err()); // no token
    c.goblinpay_token = "tok".into();
    assert!(c.validate().is_err()); // no price
    c.name_price_nanogrin = grin_to_nanogrin("1.5").unwrap();
    assert!(c.validate().is_ok());

    let mut w = base();
    w.pay_mode = PayMode::Write;
    w.goblinpay_url = "https://pay.example".into();
    w.goblinpay_token = "tok".into();
    assert!(w.validate().is_err()); // no write price
    w.write_price_nanogrin = 1;
    assert!(w.validate().is_ok());
}

#[test]
fn grin_amount_parsing() {
    assert_eq!(grin_to_nanogrin("1").unwrap(), 1_000_000_000);
    assert_eq!(grin_to_nanogrin("0.5").unwrap(), 500_000_000);
    assert_eq!(grin_to_nanogrin("2.25").unwrap(), 2_250_000_000);
    assert_eq!(grin_to_nanogrin("0.000000001").unwrap(), 1);
    assert_eq!(grin_to_nanogrin("0").unwrap(), 0);
    assert!(grin_to_nanogrin("").is_err());
    assert!(grin_to_nanogrin(".").is_err());
    assert!(grin_to_nanogrin("-1").is_err());
    assert!(grin_to_nanogrin("1.0000000001").is_err());
    assert!(grin_to_nanogrin("1,5").is_err());
    assert_eq!(nanogrin_to_grin(1_500_000_000), "1.5");
    assert_eq!(nanogrin_to_grin(2_000_000_000), "2");
}

#[test]
fn grin_amount_edges() {
    assert_eq!(grin_to_nanogrin(" 1. "), Ok(1_000_000_000));
    assert_eq!(grin_to_nanogrin(".5"), Ok(500_000_000));
    assert_eq!(grin_to_nanogrin("18446744073.709551615"), Ok(u64::MAX));
    assert_eq!(
        grin_to_nanogrin("18446744073.709551616").unwrap_err(),
        "invalid GRIN amount `18446744073.709551616`"
    );
    assert_eq!(
        grin_to_nanogrin("99999999999999999999999").unwrap_err(),
        "invalid GRIN amount `99999999999999999999999`"
    );
    assert_eq!(
        grin_to_nanogrin("1.0000000001").unwrap_err(),
        "`1.0000000001` has more than 9 decimal places"
    );
    assert_eq!(grin_to_nanogrin("+1").unwrap_err(), "invalid GRIN amount `+1`");
    assert_eq!(nanogrin_to_grin(0), "0");
    assert_eq!(nanogrin_to_grin(1), "0.000000001");
    assert_eq!(nanogrin_to_grin(u64::MAX), "18446744073.709551615");
}

#[test]
fn grin_amounts_round_trip() {
    for n in [0, 1, 9, 10, 999_999_999, 1_000_000_000, 1_234_500_000, u64::MAX] {
        assert_eq!(grin_to_nanogrin(&nanogrin_to_grin(n)), Ok(n));
    }
}

#[test]
fn pay_modes_parse() {
    assert_eq!(PayMode::parse("off"), Ok(PayMode::Off));
    assert_eq!(PayMode::parse("name"), Ok(PayMode::Name));
    assert_eq!(PayMode::parse("write"), Ok(PayMode::Write));
    assert_eq!(
        PayMode::parse("Off").unwrap_err(),
        "FLOONET_PAY_MODE must be off, name or write (got `Off`)"
    );
}

#[test]
fn empty_environment_loads_the_defaults() {
    let c = ready(&env(&[]));
    assert_eq!(c.domain, "floonet.example");
    assert_eq!(c.base_url, "https://floonet.example");
    assert_eq!(c.relays, vec!["wss://floonet.example".to_string()]);
    assert_eq!(c.bind_addr, "127.0.0.1:8191");
    assert_eq!(c.db_path, "/var/lib/floonet-authority/names.db");
    assert_eq!(c.name_change_cooldown, 600);
    assert_eq!(c.auth_max_age_secs, 60);
    assert_eq!((c.name_min, c.name_max), (3, 20));
    assert_eq!((c.read_rate_max, c.read_rate_window), (120, 60));
    assert_eq!((c.write_rate_max, c.write_rate_window), (10, 3600));
    assert_eq!(c.extra_reserved, vec!["floonet".to_string()]);
    assert_eq!(c.pay_mode, PayMode::Off);
    assert_eq!(c.goblinpay_webhook_secret, None);
    assert_eq!(c.paid_poll_interval, 5);
    assert!(!c.allow_transfers);
    assert_eq!(c.transfer_min_conf, 10);
    assert_eq!(c.transfer_max_offer_ttl, 2_592_000);
    assert_eq!(c.transfer_claim_grace, 86_400);
}

#[test]
fn variables_override_the_defaults() {
    let c = ready(&env(&[
        ("FLOONET_DOMAIN", "Names.Example.Org"),
        ("FLOONET_BASE_URL", "https://Names.Example.Org"),
        ("FLOONET_RELAYS", " wss://a , ,wss://b"),
        ("FLOONET_NAME_MIN", "+4"),
        ("FLOONET_NAME_MAX", "nonsense"),
        ("FLOONET_AUTH_MAX_AGE_SECS", "-5"),
        ("FLOONET_PAY_MODE", "name"),
        ("FLOONET_NAME_PRICE_GRIN", "1.5"),
        ("GOBLINPAY_URL", "https://pay.example//"),
        ("GOBLINPAY_TOKEN", "tok"),
        ("GOBLINPAY_WEBHOOK_SECRET", "whsec"),
        ("FLOONET_TRANSFERS", "true"),
        ("FLOONET_GRIN_NODE_URL", "http://a/v2/foreign, http://b/v2/foreign"),
    ]));
    assert_eq!(c.relays, vec!["wss://a".to_string(), "wss://b".to_string()]);
    assert_eq!((c.name_min, c.name_max), (4, 20));
    assert_eq!(c.auth_max_age_secs, -5);
    assert_eq!(c.extra_reserved, vec!["names".to_string(), "example".to_string()]);
    assert_eq!(c.name_price_nanogrin, 1_500_000_000);
    assert_eq!(c.goblinpay_url, "https://pay.example");
    assert_eq!(c.goblinpay_webhook_secret.as_deref(), Some("whsec"));
    assert!(c.allow_transfers);
    assert_eq!(
        c.grin_node_endpoints(),
        vec!["http://a/v2/foreign".to_string(), "http://b/v2/foreign".to_string()]
    );
}

#[test]
fn each_misconfiguration_is_refused() {
    assert_eq!(refused(&env(&[("FLOONET_DOMAIN", "")])), "FLOONET_DOMAIN must not be empty");
    assert_eq!(
        refused(&env(&[("FLOONET_BASE_URL", "https://")])),
        "FLOONET_BASE_URL has no host"
    );
    assert_eq!(
        refused(&env(&[("FLOONET_PAY_MODE", "maybe")])),
        "FLOONET_PAY_MODE must be off, name or write (got `maybe`)"
    );
    assert_eq!(
        refused(&env(&[("FLOONET_NAME_PRICE_GRIN", "x")])),
        "invalid GRIN amount `x`"
    );
    assert_eq!(
        refused(&env(&[("FLOONET_WRITE_PRICE_GRIN", "y")])),
        "invalid GRIN amount `y`"
    );
    assert_eq!(
        refused(&env(&[("FLOONET_PAY_MODE", "name")])),
        "FLOONET_PAY_MODE is on but GOBLINPAY_URL is not set"
    );
    assert_eq!(
        refused(&env(&[("FLOONET_PAY_MODE", "name"), ("GOBLINPAY_URL", "https://p")])),
        "FLOONET_PAY_MODE is on but no GoblinPay token is set \
         (GOBLINPAY_TOKEN or GOBLINPAY_TOKEN_FILE)"
    );
    let paid = [("GOBLINPAY_URL", "https://p"), ("GOBLINPAY_TOKEN", "t")];
    assert_eq!(
        refused(&env(&[("FLOONET_PAY_MODE", "name"), paid[0], paid[1]])),
        "FLOONET_PAY_MODE=name needs FLOONET_NAME_PRICE_GRIN > 0"
    );
    assert_eq!(
        refused(&env(&[("FLOONET_PAY_MODE", "write"), paid[0], paid[1]])),
        "FLOONET_PAY_MODE=write needs FLOONET_WRITE_PRICE_GRIN > 0"
    );
    assert_eq!(
        refused(&env(&[("FLOONET_TRANSFERS", "true")])),
        "FLOONET_TRANSFERS is on but FLOONET_GRIN_NODE_URL is not set"
    );
}

#[test]
fn files_are_asked_for_one_after_the_other() {
    let mut e = env(&[
        ("FLOONET_RESERVED_FILE", "/reserved"),
        ("GOBLINPAY_TOKEN_FILE", "/token"),
        ("GOBLINPAY_TOKEN", "inline"),
        ("GOBLINPAY_WEBHOOK_SECRET_FILE", "/secret"),
    ]);
    assert!(matches!(Config::from_env(&e), Load::Read(p) if p == "/reserved"));
    e.files.push(("/reserved".into(), Ok("# no\n Admin \n\nRoot".into())));
    assert!(matches!(Config::from_env(&e), Load::Read(p) if p == "/token"));
    e.files.push(("/token".into(), Ok(" tok\n".into())));
    assert!(matches!(Config::from_env(&e), Load::Read(p) if p == "/secret"));
    e.files.push(("/secret".into(), Ok("whsec\n".into())));
    let c = ready(&e);
    assert_eq!(
        c.extra_reserved,
        vec!["floonet".to_string(), "admin".to_string(), "root".to_string()]
    );
    assert_eq!(c.goblinpay_token, "tok");
    assert_eq!(c.goblinpay_webhook_secret.as_deref(), Some("whsec"));
}

#[test]
fn unreadable_files_are_refused() {
    let mut e = env(&[("FLOONET_RESERVED_FILE", "/reserved")]);
    e.files.push(("/reserved".into(), Err("gone".into())));
    assert_eq!(refused(&e), "FLOONET_RESERVED_FILE `/reserved` unreadable: gone");
    let mut e = env(&[("GOBLINPAY_TOKEN_FILE", "/token")]);
    e.files.push(("/token".into(), Err("denied".into())));
    assert_eq!(refused(&e), "GOBLINPAY_TOKEN_FILE `/token` unreadable: denied");
    let mut e = env(&[("GOBLINPAY_WEBHOOK_SECRET_FILE", "/secret")]);
    e.files.push(("/secret".into(), Err("denied".into())));
    assert_eq!(refused(&e), "GOBLINPAY_WEBHOOK_SECRET_FILE `/secret` unreadable: denied");
}

#[test]
fn summary_is_one_line_without_secrets() {
    let mut c = base();
    c.goblinpay_token = "SECRETTOKEN".into();
    c.goblinpay_webhook_secret = Some("SECRETHOOK".into());
    c.name_price_nanogrin = 1_500_000_000;
    let line = c.summary();
    assert_eq!(
        line,
        "domain=floonet.example base_url=https://floonet.example \
         relays=[\"wss://floonet.example\"] bind=127.0.0.1:0 db=:memory: name_len=3..=20 \
         cooldown=600s auth_max_age=60s read=100000req/60s write=100000req/3600s \
         reserved_extra=1 pay_mode=Off name_price=1.5g write_price=0g goblinpay=unset"
    );
    let mut d = base();
    d.name_price_nanogrin = 1_500_000_000;
    assert_eq!(d.summary(), line);
}

#[test]
fn word_lists_split_at_commas_and_white_space() {
    assert_eq!(split_words(" a,b ,\tc\n"), vec!["a", "b", "c"]);
    assert_eq!(split_words(" , "), Vec::<String>::new());
}

#[test]
fn reserved_names_fold_case_beyond_ascii() {
    assert_eq!(reserved_names("ÄBC\r\n# x\n Straße "), vec!["äbc", "straße"]);
}
