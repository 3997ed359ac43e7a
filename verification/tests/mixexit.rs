//! The mixnet exit's modes and settings.

use floonet_name_authority::config::Env;
use floonet_name_authority::mixexit::{data_dir, exit_mode, upstream, ExitMode, USAGE};

fn env(vars: &[(&str, &str)]) -> Env {
    Env {
        vars: vars.iter().map(|(k, v)| (k.to_string(), v.to_string())).collect(),
        files: Vec::new(),
    }
}

#[test]
fn arguments_name_the_mode() {
    assert!(matches!(exit_mode(&None), ExitMode::Serve));
    assert!(matches!(exit_mode(&Some("--help".into())), ExitMode::Help));
    assert!(matches!(exit_mode(&Some("-h".into())), ExitMode::Help));
    assert!(matches!(exit_mode(&Some("--selftest".into())), ExitMode::SelfTest));
    assert!(matches!(exit_mode(&Some("x".into())), ExitMode::Unknown(a) if a == "x"));
    assert!(USAGE.starts_with("floonet-mixexit"));
    assert!(USAGE.contains("FLOONET_EXIT_UPSTREAM"));
}

#[test]
fn settings_have_defaults() {
    let none = env(&[]);
    assert_eq!(data_dir(&none), "./mixexit-data");
    assert_eq!(upstream(&none), "relay.goblin.st:443");
    let set = env(&[("FLOONET_MIXEXIT_DIR", "/data"), ("FLOONET_EXIT_UPSTREAM", "relay:443")]);
    assert_eq!(data_dir(&set), "/data");
    assert_eq!(upstream(&set), "relay:443");
}
