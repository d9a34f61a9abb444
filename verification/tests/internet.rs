use panoramas::cfg::{Alert, AlertSeverity, ConfigError};
use panoramas::internet::cfg::{CheckUrl, DnsServerSource, IpAddress, OnlineConfig};
use panoramas::internet::{OnlineManager, ProbeStep};

fn config(retry_count: usize, urls: usize) -> OnlineConfig {
    let mut c = OnlineConfig::default();
    c.retry_count = retry_count;
    c.retry_interval_seconds = 7;
    c.urls = Vec::new();
    for i in 0..urls {
        c.urls.push(CheckUrl::new(&format!("https://example.org/{}", i), None).unwrap());
    }
    c
}

/// Runs one tick with the given outcomes of the probes and gives the
/// verdict with the steps that were taken.
fn run(manager: &OnlineManager, outcomes: &[bool]) -> (bool, Vec<(usize, usize, u64)>) {
    let mut probes = Vec::new();
    let mut step = manager.first_probe();
    loop {
        match step {
            ProbeStep::Finished { online } => return (online, probes),
            ProbeStep::Probe { attempt, index, delay_seconds } => {
                probes.push((attempt, index, delay_seconds));
                assert!(attempt < outcomes.len(), "more probes than outcomes");
                step = manager.next_probe(attempt, outcomes[attempt]);
            }
        }
    }
}

#[test]
fn all_probes_failing_makes_one_attempt_and_the_retries() {
    let mut m = OnlineManager::new(config(2, 2)).unwrap();
    let (online, probes) = run(&m, &[false, false, false, false, false]);
    assert!(!online);
    assert_eq!(probes, vec![(0, 0, 0), (1, 1, 7), (2, 0, 7)]);
    let alert = m.observe(online, 1000).unwrap();
    assert_eq!(alert.alert.summary, "Internet is unreachable - system appears to be offline!");
    assert_eq!(m.offline_since(), Some(1000));
}

#[test]
fn a_success_on_the_second_attempt_ends_the_tick() {
    let mut m = OnlineManager::new(config(2, 2)).unwrap();
    let (online, probes) = run(&m, &[false, true, false]);
    assert!(online);
    assert_eq!(probes.len(), 2);
    assert_eq!(probes, vec![(0, 0, 0), (1, 1, 7)]);
    assert!(m.observe(online, 5).is_none());
    assert_eq!(m.offline_since(), None);
}

#[test]
fn a_success_at_once_makes_one_probe() {
    let m = OnlineManager::new(config(2, 3)).unwrap();
    assert_eq!(run(&m, &[true]), (true, vec![(0, 0, 0)]));
}

#[test]
fn a_success_on_the_last_retry_counts() {
    let m = OnlineManager::new(config(2, 3)).unwrap();
    let (online, probes) = run(&m, &[false, false, true]);
    assert!(online);
    assert_eq!(probes, vec![(0, 0, 0), (1, 1, 7), (2, 2, 7)]);
}

#[test]
fn the_number_of_attempts_is_one_more_than_the_retries() {
    for retries in 0..9usize {
        for urls in 1..4usize {
            let m = OnlineManager::new(config(retries, urls)).unwrap();
            let outcomes = vec![false; retries + 2];
            let (online, probes) = run(&m, &outcomes);
            assert!(!online);
            assert_eq!(probes.len(), retries + 1);
            for (k, (attempt, index, delay)) in probes.iter().enumerate() {
                assert_eq!(*attempt, k);
                assert_eq!(*index, k % urls);
                assert_eq!(*delay, if k == 0 { 0 } else { 7 });
            }
        }
    }
}

#[test]
fn next_probe_steps() {
    let m = OnlineManager::new(config(1, 2)).unwrap();
    assert_eq!(m.first_probe(), ProbeStep::Probe { attempt: 0, index: 0, delay_seconds: 0 });
    assert_eq!(m.next_probe(0, true), ProbeStep::Finished { online: true });
    assert_eq!(m.next_probe(0, false), ProbeStep::Probe { attempt: 1, index: 1, delay_seconds: 7 });
    assert_eq!(m.next_probe(1, false), ProbeStep::Finished { online: false });
    assert_eq!(m.next_probe(1, true), ProbeStep::Finished { online: true });
    assert_eq!(m.next_probe(usize::MAX, false), ProbeStep::Finished { online: false });
}

#[test]
fn alerts_are_raised_once_for_each_edge() {
    let mut m = OnlineManager::new(config(2, 1)).unwrap();
    assert_eq!(m.check_count(), 0);
    assert!(m.observe(true, 1).is_none());
    assert_eq!(m.pause_seconds(), 30);
    let down = m.observe(false, 2).unwrap();
    assert_eq!(down.group, "panorama.internet");
    assert_eq!(down.variables.len(), 0);
    assert_eq!(down.alert.severity, AlertSeverity::Critical);
    assert_eq!(m.offline_since(), Some(2));
    assert_eq!(m.pause_seconds(), 3);
    assert!(m.observe(false, 3).is_none());
    assert_eq!(m.offline_since(), Some(2));
    let up = m.observe(true, 4).unwrap();
    assert_eq!(up.alert.summary, "Internet is reachable!");
    assert_eq!(up.alert.expire_after_seconds, Some(10));
    assert_eq!(up.group, "panorama.internet");
    assert_eq!(m.offline_since(), None);
    assert!(m.observe(true, 5).is_none());
    assert_eq!(m.check_count(), 5);
}

#[test]
fn edges_without_configured_alerts_are_silent() {
    let mut c = config(0, 1);
    c.alert_disconnected = None;
    c.alert_reconnected = Some(Alert {
        severity: AlertSeverity::Info,
        on_startup: false,
        repeat_after_seconds: None,
        expire_after_seconds: None,
        summary: "back".to_string(),
        message: None,
    });
    let mut m = OnlineManager::new(c).unwrap();
    assert!(m.observe(false, 1).is_none());
    assert_eq!(m.offline_since(), Some(1));
    assert_eq!(m.observe(true, 2).unwrap().alert.summary, "back");
}

#[test]
fn validate_rejects_empty_lists() {
    let mut c = OnlineConfig::default();
    c.dns_servers = DnsServerSource::Custom(Vec::new());
    let e = c.validate().unwrap_err();
    assert!(matches!(e, ConfigError::NoDnsServers));
    assert_eq!(e.message(), "'online.dns_servers' must specify at least one server");

    let mut c = OnlineConfig::default();
    c.urls = Vec::new();
    let e = OnlineManager::new(c).err().unwrap();
    assert!(matches!(e, ConfigError::NoUrls));
    assert_eq!(e.message(), "'online.urls' must specify at least one URL");

    let mut c = OnlineConfig::default();
    c.dns_servers = DnsServerSource::System;
    assert!(c.validate().is_ok());

    let mut c = OnlineConfig::default();
    c.dns_servers = DnsServerSource::Custom(Vec::new());
    c.urls = Vec::new();
    assert!(matches!(c.validate(), Err(ConfigError::NoDnsServers)));
}

#[test]
fn default_config_values() {
    let c = OnlineConfig::default().validate().unwrap();
    assert!(c.enabled);
    assert_eq!(c.http_timeout_secs, 20);
    assert_eq!(c.query_domain, "google.com");
    assert_eq!(c.check_interval_seconds_online, 30);
    assert_eq!(c.check_interval_seconds_offline, 3);
    assert_eq!(c.retry_count, 2);
    assert_eq!(c.retry_interval_seconds, 5);
    match &c.dns_servers {
        DnsServerSource::Custom(servers) => {
            assert_eq!(servers, &vec![IpAddress::V4(1, 1, 1, 1), IpAddress::V4(8, 8, 8, 8)]);
        }
        DnsServerSource::System => panic!("custom servers expected"),
    }
    assert_eq!(c.urls.len(), 2);
    assert_eq!(c.urls[0].url(), "https://wikipedia.org/");
    assert_eq!(c.urls[0].body_contains(), &Some("Wikimedia Foundation".to_string()));
    assert_eq!(c.urls[1].url(), "https://news.ycombinator.com/");
    assert_eq!(c.urls[1].body_contains(), &Some("Hacker News".to_string()));
    let reconnected = c.alert_reconnected.as_ref().unwrap();
    assert_eq!(reconnected.severity, AlertSeverity::Info);
    assert!(!reconnected.on_startup);
    let copy = c.clone();
    assert_eq!(copy.urls[1].url(), "https://news.ycombinator.com/");
    assert_eq!(copy.query_domain, "google.com");
    assert_eq!(OnlineConfig::default_urls().len(), 2);
    assert_eq!(OnlineConfig::default_retry_count(), 2);
    assert_eq!(OnlineConfig::default_retry_interval_seconds(), 5);
    assert_eq!(OnlineConfig::default_http_timeout_secs(), 20);
    assert_eq!(OnlineConfig::default_query_domain(), "google.com");
    assert_eq!(OnlineConfig::default_check_interval_seconds_online(), 30);
    assert_eq!(OnlineConfig::default_check_interval_seconds_offline(), 3);
}

#[test]
fn check_url_holds_the_url_as_the_parser_writes_it() {
    let c = CheckUrl::new("https://wikipedia.org", None).unwrap();
    assert_eq!(c.url(), "https://wikipedia.org/");
    assert_eq!(c.url(), url::Url::parse("https://wikipedia.org").unwrap().as_str());
    let c = CheckUrl::new("HTTP://Example.COM:80/a b?q=1#f", None).unwrap();
    assert_eq!(c.url(), "http://example.com/a%20b?q=1#f");
    assert_eq!(c.url(), url::Url::parse("HTTP://Example.COM:80/a b?q=1#f").unwrap().as_str());
}

#[test]
fn check_url_rejects_what_is_no_url() {
    for text in ["", "not a url", "//missing.scheme", "http://", "https://exa mple.org"] {
        assert!(url::Url::parse(text).is_err());
        let e = CheckUrl::new(text, None).unwrap_err();
        match &e {
            ConfigError::InvalidUrl { url } => assert_eq!(url, text),
            other => panic!("wrong error: {:?}", other),
        }
        assert_eq!(e.message(), format!("'{}' is not a URL", text));
    }
}

#[test]
fn check_url_judges_the_body() {
    let plain = CheckUrl::new("https://example.org", None).unwrap();
    assert!(!plain.expects_body());
    assert!(plain.accepts(""));
    assert!(plain.accepts("anything"));
    let picky = CheckUrl::new("https://example.org", Some("Hacker News".to_string())).unwrap();
    assert!(picky.expects_body());
    assert!(picky.accepts("<title>Hacker News</title>"));
    assert!(!picky.accepts("<title>hacker news</title>"));
    assert!(!picky.accepts(""));
    let copy = picky.clone();
    assert_eq!(copy.url(), picky.url());
    assert_eq!(copy.body_contains(), picky.body_contains());
}
