use panoramas::cfg::{Config, ConfigError};
use panoramas::cli::{Cli, CliError};
use panoramas::{App, SupervisorError, Unit, UnitEnd};

fn args(items: &[&str]) -> Vec<String> {
    items.iter().map(|x| x.to_string()).collect()
}

#[test]
fn every_enabled_monitor_gets_a_unit() {
    let app = App::new(Config::default());
    assert_eq!(
        app.units(),
        vec![Unit::Power, Unit::Online, Unit::Fs, Unit::Udev, Unit::Notifier]
    );
    let mut c = Config::default();
    c.power.enabled = false;
    c.fs.enabled = false;
    assert_eq!(App::new(c).units(), vec![Unit::Online, Unit::Udev, Unit::Notifier]);
    let mut c = Config::default();
    c.power.enabled = false;
    c.online.enabled = false;
    c.fs.enabled = false;
    let app = App::new(c);
    assert_eq!(app.units(), vec![Unit::Udev, Unit::Notifier]);
    assert!(!app.config().online.enabled);
}

#[test]
fn the_first_end_decides() {
    assert!(App::conclude(Some((Unit::Udev, UnitEnd::Returned))).is_ok());
    match App::conclude(Some((Unit::Power, UnitEnd::Failed { cause: "no sysfs".to_string() }))) {
        Err(SupervisorError::UnitFailed { unit, cause }) => {
            assert_eq!(unit, Unit::Power);
            assert_eq!(cause, "no sysfs");
        }
        other => panic!("wrong outcome: {:?}", other),
    }
    match App::conclude(Some((Unit::Notifier, UnitEnd::Aborted))) {
        Err(SupervisorError::UnitAborted { unit }) => assert_eq!(unit, Unit::Notifier),
        other => panic!("wrong outcome: {:?}", other),
    }
    assert!(matches!(App::conclude(None), Err(SupervisorError::NothingRan)));
}

#[test]
fn config_validation_covers_the_power_part() {
    let c = Config::default().validate().unwrap();
    assert_eq!(c.power.phases.len(), 4);
    assert_eq!(c.online.retry_count, 2);
    assert!(c.fs.enabled);
    let mut bad = Config::default();
    bad.power.refresh_interval_seconds = 0;
    assert!(matches!(bad.validate(), Err(ConfigError::ZeroRefreshInterval)));
    let mut empty = Config::default();
    empty.power.phases = Vec::new();
    assert_eq!(empty.clone().validate().unwrap().power.phases.len(), 4);
}

#[test]
fn cli_without_options() {
    let cli = Cli::parse(&args(&["panorama"])).unwrap();
    assert_eq!(cli.config_path, None);
    assert!(!cli.verbose);
    assert!(!cli.help);
    assert!(!cli.dump_default_config);
    assert!(Cli::parse(&Vec::new()).is_ok());
}

#[test]
fn cli_reads_every_option() {
    let cli = Cli::parse(&args(&["panorama", "-v", "--config", "/etc/p.toml", "-h", "--dump-default-config"]))
        .unwrap();
    assert_eq!(cli.config_path, Some("/etc/p.toml".to_string()));
    assert!(cli.verbose);
    assert!(cli.help);
    assert!(cli.dump_default_config);
    let cli = Cli::parse(&args(&["-v", "--verbose", "--help"])).unwrap();
    assert!(cli.verbose);
    assert!(cli.help);
    assert!(!cli.dump_default_config);
}

#[test]
fn cli_takes_the_last_path_and_any_text_as_path() {
    let cli = Cli::parse(&args(&["p", "-c", "a", "-c", "-v"])).unwrap();
    assert_eq!(cli.config_path, Some("-v".to_string()));
    assert!(!cli.verbose);
}

#[test]
fn cli_errors() {
    let e = Cli::parse(&args(&["p", "-v", "-c"])).unwrap_err();
    assert!(matches!(e, CliError::MissingConfigPath));
    assert_eq!(e.message(), "-c/--config requires a path");
    let e = Cli::parse(&args(&["p", "--verbos", "-h"])).unwrap_err();
    match &e {
        CliError::UnknownArgument { argument } => assert_eq!(argument, "--verbos"),
        other => panic!("wrong error: {:?}", other),
    }
    assert_eq!(e.message(), "unknown argument '--verbos'");
    assert!(Cli::USAGE.starts_with("panorama - a status daemon for Linux\n\nUSAGE:\n"));
    assert!(Cli::USAGE.contains("* --dump-default-config - show the default config file and exit\n"));
}
