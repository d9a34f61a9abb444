//! The configuration of the reachability monitor: the URLs that are probed,
//! how often, and how many failed probes are borne before the machine counts
//! as offline.

use crate::cfg::{clone_alert, clone_text, Alert, AlertSeverity, AlertView, ConfigError, ConfigErrorView};
use crate::text::{contains, contains_text};
use vstd::prelude::*;

verus! {

/// The error of the parser of the crate `url`, `url::ParseError`. Nothing is
/// claimed of what it holds.
#[verifier::external_type_specification]
#[verifier::external_body]
pub struct ExUrlParseError(url::ParseError);

/// The text in which the crate `url` writes the URL that it reads from
/// `input`, or nothing where it reads no URL from it.
pub uninterp spec fn url_serialization(input: Seq<char>) -> Option<Seq<char>>;

/// Reads a URL with `url::Url::parse` and gives the text that the crate
/// writes it in (`Url::as_str`, through `String::from`), or the error of the
/// parser.
#[verifier::external_body]
fn parse_url(input: &str) -> (r: Result<String, url::ParseError>)
    ensures
        match r {
            Ok(text) => url_serialization(input@) == Some(text@),
            Err(_) => url_serialization(input@) is None,
        },
{
    url::Url::parse(input).map(String::from)
}

/// Whether `text` is what the crate `url` writes some URL in.
pub open spec fn is_url(text: Seq<char>) -> bool {
    exists|input: Seq<char>| url_serialization(input) == Some(text)
}

/// A URL to probe, and the text that its answer must hold for the probe to
/// count as passed.
#[derive(Debug)]
pub struct CheckUrl {
    url: String,
    body_contains: Option<String>,
}

/// A `CheckUrl` with its texts as sequences of characters.
pub struct CheckUrlView {
    pub url: Seq<char>,
    pub body_contains: Option<Seq<char>>,
}

impl DeepView for CheckUrl {
    type V = CheckUrlView;

    closed spec fn deep_view(&self) -> CheckUrlView {
        CheckUrlView { url: self.url@, body_contains: self.body_contains.deep_view() }
    }
}

impl CheckUrlView {
    /// Whether an answer with the text `body` passes the probe.
    pub open spec fn accepts(self, body: Seq<char>) -> bool {
        match self.body_contains {
            Some(expected) => contains(body, expected),
            None => true,
        }
    }

    /// The check for the text `input`, where it is a URL.
    pub open spec fn of(input: Seq<char>, body_contains: Option<Seq<char>>) -> Result<
        CheckUrlView,
        ConfigErrorView,
    > {
        match url_serialization(input) {
            Some(url) => Ok(CheckUrlView { url, body_contains }),
            None => Err(ConfigErrorView::InvalidUrl { url: input }),
        }
    }
}

impl Clone for CheckUrl {
    fn clone(&self) -> (r: Self)
        ensures
            r.deep_view() == self.deep_view(),
    {
        proof {
            use_type_invariant(self);
        }
        CheckUrl { url: self.url.clone(), body_contains: clone_text(&self.body_contains) }
    }
}

impl CheckUrl {
    #[verifier::type_invariant]
    spec fn inv(self) -> bool {
        is_url(self.url@)
    }

    /// The check for a text that was read as a URL with the outcome
    /// `parsed`: the URL as the reader wrote it, or the complaint that
    /// `input` is no URL.
    pub fn from_parsed(
        input: &str,
        parsed: Result<String, url::ParseError>,
        body_contains: Option<String>,
    ) -> (r: Result<CheckUrl, ConfigError>)
        requires
            match parsed {
                Ok(text) => url_serialization(input@) == Some(text@),
                Err(_) => url_serialization(input@) is None,
            },
        ensures
            match r {
                Ok(c) => parsed is Ok && c.deep_view() == (CheckUrlView {
                    url: parsed->Ok_0@,
                    body_contains: body_contains.deep_view(),
                }),
                Err(e) => parsed is Err && e.deep_view() == (ConfigErrorView::InvalidUrl {
                    url: input@,
                }),
            },
    {
        match parsed {
            Ok(url) => Ok(CheckUrl { url, body_contains }),
            Err(_) => Err(ConfigError::InvalidUrl { url: input.to_owned() }),
        }
    }

    /// The check for the URL that `input` writes. A text that is no URL is
    /// rejected.
    pub fn new(input: &str, body_contains: Option<String>) -> (r: Result<CheckUrl, ConfigError>)
        ensures
            match r {
                Ok(c) => CheckUrlView::of(input@, body_contains.deep_view()) == Ok::<
                    CheckUrlView,
                    ConfigErrorView,
                >(c.deep_view()),
                Err(e) => CheckUrlView::of(input@, body_contains.deep_view()) == Err::<
                    CheckUrlView,
                    ConfigErrorView,
                >(e.deep_view()),
            },
    {
        let parsed = parse_url(input);
        CheckUrl::from_parsed(input, parsed, body_contains)
    }

    /// The URL, as the crate `url` writes it.
    pub fn url(&self) -> (r: &String)
        ensures
            r@ == self.deep_view().url,
            is_url(r@),
    {
        proof {
            use_type_invariant(self);
        }
        &self.url
    }

    /// The text that an answer must hold.
    pub fn body_contains(&self) -> (r: &Option<String>)
        ensures
            r.deep_view() == self.deep_view().body_contains,
    {
        &self.body_contains
    }

    /// Whether the text of the answer has to be read to judge the probe.
    pub fn expects_body(&self) -> (r: bool)
        ensures
            r == self.deep_view().body_contains is Some,
    {
        self.body_contains.is_some()
    }

    /// Whether an answer with the text `body` passes the probe.
    pub fn accepts(&self, body: &str) -> (r: bool)
        ensures
            r == self.deep_view().accepts(body@),
    {
        match &self.body_contains {
            Some(expected) => contains_text(body, expected.as_str()),
            None => true,
        }
    }
}


/// The address of a machine on the network, of version 4 or 6.
#[derive(Clone, Copy, Debug, PartialEq, Eq, Structural)]
pub enum IpAddress {
    V4(u8, u8, u8, u8),
    V6(u16, u16, u16, u16, u16, u16, u16, u16),
}

/// DNS servers to use for online checks.
#[derive(Debug)]
pub enum DnsServerSource {
    System,
    Custom(Vec<IpAddress>),
}

/// A `DnsServerSource` with its servers as a sequence.
pub enum DnsServerSourceView {
    System,
    Custom(Seq<IpAddress>),
}

impl DeepView for DnsServerSource {
    type V = DnsServerSourceView;

    open spec fn deep_view(&self) -> DnsServerSourceView {
        match self {
            DnsServerSource::System => DnsServerSourceView::System,
            DnsServerSource::Custom(servers) => DnsServerSourceView::Custom(servers@),
        }
    }
}

impl Clone for DnsServerSource {
    fn clone(&self) -> (r: Self)
        ensures
            r.deep_view() == self.deep_view(),
    {
        match self {
            DnsServerSource::System => DnsServerSource::System,
            DnsServerSource::Custom(servers) => {
                let mut copy: Vec<IpAddress> = Vec::new();
                let mut i: usize = 0;
                while i < servers.len()
                    invariant
                        i <= servers.len(),
                        copy@ == servers@.take(i as int),
                    decreases servers.len() - i,
                {
                    copy.push(servers[i]);
                    i += 1;
                }
                assert(servers@.take(servers.len() as int) == servers@);
                DnsServerSource::Custom(copy)
            },
        }
    }
}

/// The configuration of the reachability monitor.
#[derive(Debug)]
pub struct OnlineConfig {
    pub enabled: bool,
    pub dns_servers: DnsServerSource,
    /// HTTP URLs to check for internet connectivity.
    pub urls: Vec<CheckUrl>,
    pub http_timeout_secs: u64,
    pub query_domain: String,
    pub check_interval_seconds_online: u64,
    pub check_interval_seconds_offline: u64,
    /// How often to retry failed checks before the system is considered
    /// offline.
    pub retry_count: usize,
    pub retry_interval_seconds: u64,
    pub alert_reconnected: Option<Alert>,
    pub alert_disconnected: Option<Alert>,
}

/// An `OnlineConfig` with its texts as sequences of characters.
pub struct OnlineConfigView {
    pub enabled: bool,
    pub dns_servers: DnsServerSourceView,
    pub urls: Seq<CheckUrlView>,
    pub http_timeout_secs: u64,
    pub query_domain: Seq<char>,
    pub check_interval_seconds_online: u64,
    pub check_interval_seconds_offline: u64,
    pub retry_count: usize,
    pub retry_interval_seconds: u64,
    pub alert_reconnected: Option<AlertView>,
    pub alert_disconnected: Option<AlertView>,
}

impl DeepView for OnlineConfig {
    type V = OnlineConfigView;

    open spec fn deep_view(&self) -> OnlineConfigView {
        OnlineConfigView {
            enabled: self.enabled,
            dns_servers: self.dns_servers.deep_view(),
            urls: self.urls.deep_view(),
            http_timeout_secs: self.http_timeout_secs,
            query_domain: self.query_domain@,
            check_interval_seconds_online: self.check_interval_seconds_online,
            check_interval_seconds_offline: self.check_interval_seconds_offline,
            retry_count: self.retry_count,
            retry_interval_seconds: self.retry_interval_seconds,
            alert_reconnected: self.alert_reconnected.deep_view(),
            alert_disconnected: self.alert_disconnected.deep_view(),
        }
    }
}

/// The checks for those of the `targets`, each a text and what the answer
/// must hold, whose text is a URL.
pub open spec fn checks_of(targets: Seq<(Seq<char>, Option<Seq<char>>)>) -> Seq<CheckUrlView>
    decreases targets.len(),
{
    if targets.len() == 0 {
        Seq::empty()
    } else {
        let rest = checks_of(targets.drop_last());
        match CheckUrlView::of(targets.last().0, targets.last().1) {
            Ok(check) => rest.push(check),
            Err(_) => rest,
        }
    }
}

impl OnlineConfigView {
    /// What is probed unless configured.
    pub open spec fn default_targets() -> Seq<(Seq<char>, Option<Seq<char>>)> {
        seq![
            ("https://wikipedia.org"@, Some("Wikimedia Foundation"@)),
            ("https://news.ycombinator.com"@, Some("Hacker News"@)),
        ]
    }

    /// The alert for the return of the network, unless configured.
    pub open spec fn default_alert_reconnected() -> Option<AlertView> {
        Some(
            AlertView {
                severity: AlertSeverity::Info,
                on_startup: false,
                repeat_after_seconds: None,
                expire_after_seconds: Some(10),
                summary: "Internet is reachable!"@,
                message: None,
            },
        )
    }

    /// The alert for the loss of the network, unless configured.
    pub open spec fn default_alert_disconnected() -> Option<AlertView> {
        Some(
            AlertView {
                severity: AlertSeverity::Critical,
                on_startup: false,
                repeat_after_seconds: None,
                expire_after_seconds: None,
                summary: "Internet is unreachable - system appears to be offline!"@,
                message: None,
            },
        )
    }

    /// The configuration that is used where none is given.
    pub open spec fn default_config() -> OnlineConfigView {
        OnlineConfigView {
            enabled: true,
            dns_servers: DnsServerSourceView::Custom(
                seq![IpAddress::V4(1, 1, 1, 1), IpAddress::V4(8, 8, 8, 8)],
            ),
            urls: checks_of(Self::default_targets()),
            http_timeout_secs: 20,
            query_domain: "google.com"@,
            check_interval_seconds_online: 30,
            check_interval_seconds_offline: 3,
            retry_count: 2,
            retry_interval_seconds: 5,
            alert_reconnected: Self::default_alert_reconnected(),
            alert_disconnected: Self::default_alert_disconnected(),
        }
    }

    /// A configuration is valid when it names a DNS server, unless it
    /// leaves them to the system, and a URL to probe.
    pub open spec fn valid(self) -> bool {
        &&& self.dns_servers matches DnsServerSourceView::Custom(servers) ==> servers.len() > 0
        &&& self.urls.len() > 0
    }

    /// The outcome of validation: the configuration itself, or the first
    /// thing that is wrong with it.
    pub open spec fn validated(self) -> Result<OnlineConfigView, ConfigErrorView> {
        if self.dns_servers matches DnsServerSourceView::Custom(servers) && servers.len() == 0 {
            Err(ConfigErrorView::NoDnsServers)
        } else if self.urls.len() == 0 {
            Err(ConfigErrorView::NoUrls)
        } else {
            Ok(self)
        }
    }
}

/// A copy of a list of checks.
pub fn clone_checks(checks: &Vec<CheckUrl>) -> (r: Vec<CheckUrl>)
    ensures
        r.deep_view() == checks.deep_view(),
{
    let mut r: Vec<CheckUrl> = Vec::new();
    let mut i: usize = 0;
    while i < checks.len()
        invariant
            i <= checks.len(),
            r.len() == i,
            forall|k: int| 0 <= k < i ==> r[k].deep_view() == checks[k].deep_view(),
        decreases checks.len() - i,
    {
        r.push(checks[i].clone());
        i += 1;
    }
    assert(r.deep_view() =~= checks.deep_view());
    r
}

impl Clone for OnlineConfig {
    fn clone(&self) -> (r: Self)
        ensures
            r.deep_view() == self.deep_view(),
    {
        OnlineConfig {
            enabled: self.enabled,
            dns_servers: self.dns_servers.clone(),
            urls: clone_checks(&self.urls),
            http_timeout_secs: self.http_timeout_secs,
            query_domain: self.query_domain.clone(),
            check_interval_seconds_online: self.check_interval_seconds_online,
            check_interval_seconds_offline: self.check_interval_seconds_offline,
            retry_count: self.retry_count,
            retry_interval_seconds: self.retry_interval_seconds,
            alert_reconnected: clone_alert(&self.alert_reconnected),
            alert_disconnected: clone_alert(&self.alert_disconnected),
        }
    }
}

impl Default for OnlineConfig {
    fn default() -> (r: Self)
        ensures
            r.deep_view() == OnlineConfigView::default_config(),
    {
        OnlineConfig {
            enabled: true,
            http_timeout_secs: Self::default_http_timeout_secs(),
            query_domain: Self::default_query_domain(),
            dns_servers: Self::default_dns_servers(),
            check_interval_seconds_online: Self::default_check_interval_seconds_online(),
            check_interval_seconds_offline: Self::default_check_interval_seconds_offline(),
            retry_count: Self::default_retry_count(),
            retry_interval_seconds: Self::default_retry_interval_seconds(),
            alert_reconnected: Some(
                Alert {
                    severity: AlertSeverity::Info,
                    on_startup: false,
                    repeat_after_seconds: None,
                    expire_after_seconds: Some(10),
                    summary: "Internet is reachable!".to_owned(),
                    message: None,
                },
            ),
            alert_disconnected: Some(
                Alert {
                    severity: AlertSeverity::Critical,
                    on_startup: false,
                    repeat_after_seconds: None,
                    expire_after_seconds: None,
                    summary: "Internet is unreachable - system appears to be offline!".to_owned(),
                    message: None,
                },
            ),
            urls: Self::default_urls(),
        }
    }
}

impl OnlineConfig {
    /// Checks the configuration: the DNS servers first, then the URLs.
    pub fn validate(self) -> (r: Result<Self, ConfigError>)
        ensures
            match r {
                Ok(c) => self.deep_view().validated() == Ok::<OnlineConfigView, ConfigErrorView>(
                    c.deep_view(),
                ) && c.deep_view().valid(),
                Err(e) => self.deep_view().validated() == Err::<OnlineConfigView, ConfigErrorView>(
                    e.deep_view(),
                ),
            },
    {
        match &self.dns_servers {
            DnsServerSource::System => {},
            DnsServerSource::Custom(servers) => {
                if servers.len() == 0 {
                    return Err(ConfigError::NoDnsServers);
                }
            },
        };
        if self.urls.len() == 0 {
            return Err(ConfigError::NoUrls);
        }
        Ok(self)
    }

    pub fn default_http_timeout_secs() -> (r: u64)
        ensures
            r == 20,
    {
        20
    }

    /// The checks of the default targets. A target that the crate `url`
    /// takes for no URL is left out.
    pub fn default_urls() -> (r: Vec<CheckUrl>)
        ensures
            r.deep_view() == checks_of(OnlineConfigView::default_targets()),
    {
        let mut r: Vec<CheckUrl> = Vec::new();
        let ghost targets = OnlineConfigView::default_targets();
        assert(targets.drop_last() =~= seq![targets[0]]);
        assert(targets.drop_last().drop_last() =~= Seq::empty());
        assert(checks_of(targets.drop_last().drop_last()) =~= Seq::empty());
        assert(r.deep_view() =~= checks_of(targets.drop_last().drop_last()));
        if let Ok(check) = CheckUrl::new(
            "https://wikipedia.org",
            Some("Wikimedia Foundation".to_owned()),
        ) {
            let ghost before = r.deep_view();
            r.push(check);
            assert(r.deep_view() =~= before.push(check.deep_view()));
        }
        assert(r.deep_view() == checks_of(targets.drop_last()));
        if let Ok(check) = CheckUrl::new(
            "https://news.ycombinator.com",
            Some("Hacker News".to_owned()),
        ) {
            let ghost before = r.deep_view();
            r.push(check);
            assert(r.deep_view() =~= before.push(check.deep_view()));
        }
        r
    }

    pub fn default_dns_servers() -> (r: DnsServerSource)
        ensures
            r.deep_view() == DnsServerSourceView::Custom(
                seq![IpAddress::V4(1, 1, 1, 1), IpAddress::V4(8, 8, 8, 8)],
            ),
    {
        let mut servers: Vec<IpAddress> = Vec::new();
        servers.push(IpAddress::V4(1, 1, 1, 1));
        servers.push(IpAddress::V4(8, 8, 8, 8));
        assert(servers@ =~= seq![IpAddress::V4(1, 1, 1, 1), IpAddress::V4(8, 8, 8, 8)]);
        DnsServerSource::Custom(servers)
    }

    pub fn default_query_domain() -> (r: String)
        ensures
            r@ == "google.com"@,
    {
        "google.com".to_owned()
    }

    pub fn default_check_interval_seconds_online() -> (r: u64)
        ensures
            r == 30,
    {
        30
    }

    pub fn default_check_interval_seconds_offline() -> (r: u64)
        ensures
            r == 3,
    {
        3
    }

    pub fn default_retry_count() -> (r: usize)
        ensures
            r == 2,
    {
        2
    }

    pub fn default_retry_interval_seconds() -> (r: u64)
        ensures
            r == 5,
    {
        5
    }
}

} // verus!
