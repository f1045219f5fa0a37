use dev_launcher::config::{entry_is_relative, Config, RawConfig};
use dev_launcher::error::ConfigError;
use dev_launcher::location::ParsedUrl;

fn raw_config(url: &str, hash: &str, entry: &str, pkgs: &[&str]) -> RawConfig {
    RawConfig {
        url: url.to_string(),
        hash: hash.to_string(),
        entry: entry.to_string(),
        pkgs: pkgs.iter().map(|p| p.to_string()).collect(),
    }
}

#[test]
fn valid_configuration_is_accepted() {
    let config =
        Config::from_raw(raw_config("https://example.com/a.tar.gz", "deadbeef", "app/run.sh", &["vim", "git"]))
            .unwrap();
    assert_eq!(config.url().as_str(), "https://example.com/a.tar.gz");
    assert_eq!(config.hash(), "deadbeef");
    assert_eq!(config.entry(), "app/run.sh");
    assert_eq!(config.pkgs(), &vec!["vim".to_string(), "git".to_string()]);
}

#[test]
fn success_needs_both_url_and_entry() {
    let good_url = "https://example.com/a.tar.gz";
    let bad_url = "example.com/a.tar.gz";
    assert!(Config::from_raw(raw_config(good_url, "h", "bin/app", &[])).is_ok());
    assert!(Config::from_raw(raw_config(good_url, "h", "/bin/app", &[])).is_err());
    assert!(Config::from_raw(raw_config(bad_url, "h", "bin/app", &[])).is_err());
    assert!(Config::from_raw(raw_config(bad_url, "h", "/bin/app", &[])).is_err());
}

#[test]
fn absolute_entry_is_refused() {
    let res = Config::from_raw(raw_config("https://example.com/a.tar.gz", "deadbeef", "/etc/passwd", &["vim"]));
    assert_eq!(res, Err(ConfigError::InvalidEntry));
}

#[test]
fn root_alone_is_refused_as_entry() {
    let res = Config::from_raw(raw_config("https://example.com/a.tar.gz", "deadbeef", "/", &[]));
    assert_eq!(res, Err(ConfigError::InvalidEntry));
}

#[test]
fn empty_entry_is_refused() {
    // The empty path starts at no root, yet it names no program: it is
    // refused like an absolute one, so no run line is ever made of it.
    let res = Config::from_raw(raw_config("https://example.com/a.tar.gz", "deadbeef", "", &["vim"]));
    assert_eq!(res, Err(ConfigError::InvalidEntry));
}

#[test]
fn url_without_scheme_is_refused() {
    let res = Config::from_raw(raw_config("example.com/a.tar.gz", "deadbeef", "app/run.sh", &["vim"]));
    assert_eq!(res, Err(ConfigError::InvalidUrl));
}

#[test]
fn empty_url_is_refused() {
    let res = Config::from_raw(raw_config("", "deadbeef", "app/run.sh", &[]));
    assert_eq!(res, Err(ConfigError::InvalidUrl));
}

#[test]
fn url_without_host_is_refused() {
    let res = Config::from_raw(raw_config("https://", "deadbeef", "app/run.sh", &[]));
    assert_eq!(res, Err(ConfigError::InvalidUrl));
}

#[test]
fn url_is_judged_before_entry() {
    let res = Config::from_raw(raw_config("not a url", "deadbeef", "/etc/passwd", &[]));
    assert_eq!(res, Err(ConfigError::InvalidUrl));
    let res = Config::from_raw(raw_config("not a url", "deadbeef", "", &[]));
    assert_eq!(res, Err(ConfigError::InvalidUrl));
}

#[test]
fn hash_and_pkgs_are_not_checked() {
    let config =
        Config::from_raw(raw_config("https://example.com/a.tar.gz", "not hex at all!", "run", &[])).unwrap();
    assert_eq!(config.hash(), "not hex at all!");
    assert!(config.pkgs().is_empty());

    let config = Config::from_raw(raw_config("https://example.com/a.tar.gz", "", "run", &["", "a b", "c;d"]))
        .unwrap();
    assert_eq!(config.hash(), "");
    assert_eq!(config.pkgs(), &vec!["".to_string(), "a b".to_string(), "c;d".to_string()]);
}

#[test]
fn entry_is_kept_as_written() {
    let config =
        Config::from_raw(raw_config("https://example.com/a.tar.gz", "h", "./bin//app/../run.sh", &[])).unwrap();
    assert_eq!(config.entry(), "./bin//app/../run.sh");
}

#[test]
fn url_is_held_as_the_parser_serializes_it() {
    let config = Config::from_raw(raw_config("HTTPS://Example.COM", "h", "run", &[])).unwrap();
    assert_eq!(config.url().as_str(), "https://example.com/");

    let config = Config::from_raw(raw_config("https://example.com/a b", "h", "run", &[])).unwrap();
    assert_eq!(config.url().as_str(), "https://example.com/a%20b");
}

#[test]
fn parse_gives_the_serialization() {
    let url = ParsedUrl::parse("http://example.net:80/x/../y").unwrap();
    assert_eq!(url.as_str(), "http://example.net/y");
    assert_eq!(ParsedUrl::parse("  https://example.net/\n").unwrap().as_str(), "https://example.net/");
}

#[test]
fn parse_refuses_relative_references() {
    assert_eq!(ParsedUrl::parse("/a/b/c"), Err(ConfigError::InvalidUrl));
    assert_eq!(ParsedUrl::parse("//example.net/a"), Err(ConfigError::InvalidUrl));
    assert_eq!(ParsedUrl::parse("https://exa mple.net/"), Err(ConfigError::InvalidUrl));
    assert_eq!(ParsedUrl::parse("https://example.net:99999/"), Err(ConfigError::InvalidUrl));
}

#[test]
fn new_checks_the_entry_alone() {
    let url = ParsedUrl::parse("https://example.com/a.tar.gz").unwrap();
    let config = Config::new(url, "deadbeef".to_string(), "app/run.sh".to_string(), vec!["vim".to_string()])
        .unwrap();
    assert_eq!(config.url().as_str(), "https://example.com/a.tar.gz");
    assert_eq!(config.hash(), "deadbeef");
    assert_eq!(config.entry(), "app/run.sh");
    assert_eq!(config.pkgs(), &vec!["vim".to_string()]);

    let url = ParsedUrl::parse("https://example.com/a.tar.gz").unwrap();
    let res = Config::new(url, "deadbeef".to_string(), "/app/run.sh".to_string(), vec![]);
    assert_eq!(res, Err(ConfigError::InvalidEntry));

    let url = ParsedUrl::parse("https://example.com/a.tar.gz").unwrap();
    let res = Config::new(url, "deadbeef".to_string(), String::new(), vec![]);
    assert_eq!(res, Err(ConfigError::InvalidEntry));
}

#[test]
fn relative_entries() {
    assert!(entry_is_relative("app/run.sh"));
    assert!(entry_is_relative("run"));
    assert!(entry_is_relative("./run"));
    assert!(entry_is_relative("../run"));
    assert!(entry_is_relative("a/"));
    assert!(entry_is_relative("\u{e9}t\u{e9}/run"));
    assert!(!entry_is_relative(""));
    assert!(!entry_is_relative("/"));
    assert!(!entry_is_relative("/run"));
    assert!(!entry_is_relative("//run"));
}

#[test]
fn config_error_messages() {
    assert_eq!(ConfigError::InvalidUrl.message(), "configuration: `url` is not an absolute URL");
    assert_eq!(ConfigError::InvalidEntry.message(), "configuration: `entry` is not a relative path");
}
