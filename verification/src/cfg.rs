//! Alert rules and the errors that a configuration can hold.

use crate::fs::cfg::{FsConfig, FsConfigView};
use crate::internet::cfg::{OnlineConfig, OnlineConfigView};
use crate::power::cfg::{PowerConfig, PowerConfigView};
use vstd::prelude::*;

verus! {

/// How urgent an alert is.
#[derive(Clone, Copy, Debug, PartialEq, Eq, Structural)]
pub enum AlertSeverity {
    Info,
    Warning,
    Critical,
}

/// The rule for one kind of alert: how urgent it is, when it is repeated and
/// when it expires, and the text templates of its summary and message.
#[derive(Debug)]
pub struct Alert {
    pub severity: AlertSeverity,
    pub on_startup: bool,
    pub repeat_after_seconds: Option<u64>,
    pub expire_after_seconds: Option<u64>,
    pub summary: String,
    pub message: Option<String>,
}

/// An `Alert` with its texts as sequences of characters.
pub struct AlertView {
    pub severity: AlertSeverity,
    pub on_startup: bool,
    pub repeat_after_seconds: Option<u64>,
    pub expire_after_seconds: Option<u64>,
    pub summary: Seq<char>,
    pub message: Option<Seq<char>>,
}

impl DeepView for Alert {
    type V = AlertView;

    open spec fn deep_view(&self) -> AlertView {
        AlertView {
            severity: self.severity,
            on_startup: self.on_startup,
            repeat_after_seconds: self.repeat_after_seconds,
            expire_after_seconds: self.expire_after_seconds,
            summary: self.summary@,
            message: self.message.deep_view(),
        }
    }
}

impl Clone for Alert {
    fn clone(&self) -> (r: Self)
        ensures
            r.deep_view() == self.deep_view(),
    {
        Alert {
            severity: self.severity,
            on_startup: self.on_startup,
            repeat_after_seconds: self.repeat_after_seconds,
            expire_after_seconds: self.expire_after_seconds,
            summary: self.summary.clone(),
            message: clone_text(&self.message),
        }
    }
}

/// A copy of an optional text.
pub fn clone_text(text: &Option<String>) -> (r: Option<String>)
    ensures
        r.deep_view() == text.deep_view(),
{
    match text {
        Some(t) => Some(t.clone()),
        None => None,
    }
}

/// A copy of an optional alert.
pub fn clone_alert(alert: &Option<Alert>) -> (r: Option<Alert>)
    ensures
        r.deep_view() == alert.deep_view(),
{
    match alert {
        Some(a) => Some(a.clone()),
        None => None,
    }
}

/// What can be wrong with a configuration.
#[derive(Debug)]
pub enum ConfigError {
    /// The refresh interval of the power monitor is zero.
    ZeroRefreshInterval,
    /// A second battery phase has the name of an earlier one.
    DuplicatePhase { name: String },
    /// A battery phase ends below its start.
    InvalidRange { name: String, from: u8, to: u8 },
    /// A battery phase starts at or below the end of the phase before it.
    OverlappingRange { name: String, previous: String, from: u8, to: u8 },
    /// The list of DNS servers is empty.
    NoDnsServers,
    /// The list of URLs to probe is empty.
    NoUrls,
    /// A text that is to be probed is no URL.
    InvalidUrl { url: String },
}

/// A `ConfigError` with its names as sequences of characters.
pub enum ConfigErrorView {
    ZeroRefreshInterval,
    DuplicatePhase { name: Seq<char> },
    InvalidRange { name: Seq<char>, from: u8, to: u8 },
    OverlappingRange { name: Seq<char>, previous: Seq<char>, from: u8, to: u8 },
    NoDnsServers,
    NoUrls,
    InvalidUrl { url: Seq<char> },
}

impl DeepView for ConfigError {
    type V = ConfigErrorView;

    open spec fn deep_view(&self) -> ConfigErrorView {
        match self {
            ConfigError::ZeroRefreshInterval => ConfigErrorView::ZeroRefreshInterval,
            ConfigError::DuplicatePhase { name } => ConfigErrorView::DuplicatePhase { name: name@ },
            ConfigError::InvalidRange { name, from, to } => ConfigErrorView::InvalidRange {
                name: name@,
                from: *from,
                to: *to,
            },
            ConfigError::OverlappingRange {
                name,
                previous,
                from,
                to,
            } => ConfigErrorView::OverlappingRange {
                name: name@,
                previous: previous@,
                from: *from,
                to: *to,
            },
            ConfigError::NoDnsServers => ConfigErrorView::NoDnsServers,
            ConfigError::NoUrls => ConfigErrorView::NoUrls,
            ConfigError::InvalidUrl { url } => ConfigErrorView::InvalidUrl { url: url@ },
        }
    }
}

impl ConfigErrorView {
    /// The sentence that tells a user what is wrong.
    pub open spec fn text(self) -> Seq<char> {
        match self {
            ConfigErrorView::ZeroRefreshInterval => {
                "'power.refresh_interval_seconds' must be greater than 0"@
            },
            ConfigErrorView::DuplicatePhase { name } => {
                "Phase '"@ + name + "' is defined multiple times"@
            },
            ConfigErrorView::InvalidRange { name, from, to } => {
                "Phase '"@ + name + "' has invalid range: "@ + crate::text::decimal(from as nat)
                    + ".."@ + crate::text::decimal(to as nat)
            },
            ConfigErrorView::OverlappingRange { name, previous, from, to } => {
                "Phase '"@ + name + "' has overlapping range with phase '"@ + previous + "': "@
                    + crate::text::decimal(from as nat) + ".."@ + crate::text::decimal(to as nat)
            },
            ConfigErrorView::NoDnsServers => {
                "'online.dns_servers' must specify at least one server"@
            },
            ConfigErrorView::NoUrls => "'online.urls' must specify at least one URL"@,
            ConfigErrorView::InvalidUrl { url } => "'"@ + url + "' is not a URL"@,
        }
    }
}

impl ConfigError {
    /// The sentence that tells a user what is wrong.
    pub fn message(&self) -> (r: String)
        ensures
            r@ == self.deep_view().text(),
    {
        match self {
            ConfigError::ZeroRefreshInterval => {
                "'power.refresh_interval_seconds' must be greater than 0".to_owned()
            },
            ConfigError::DuplicatePhase { name } => {
                let mut r = "Phase '".to_owned();
                r.append(name.as_str());
                r.append("' is defined multiple times");
                r
            },
            ConfigError::InvalidRange { name, from, to } => {
                let mut r = "Phase '".to_owned();
                r.append(name.as_str());
                r.append("' has invalid range: ");
                crate::text::push_decimal(&mut r, *from as u128);
                r.append("..");
                crate::text::push_decimal(&mut r, *to as u128);
                r
            },
            ConfigError::OverlappingRange { name, previous, from, to } => {
                let mut r = "Phase '".to_owned();
                r.append(name.as_str());
                r.append("' has overlapping range with phase '");
                r.append(previous.as_str());
                r.append("': ");
                crate::text::push_decimal(&mut r, *from as u128);
                r.append("..");
                crate::text::push_decimal(&mut r, *to as u128);
                r
            },
            ConfigError::NoDnsServers => {
                "'online.dns_servers' must specify at least one server".to_owned()
            },
            ConfigError::NoUrls => "'online.urls' must specify at least one URL".to_owned(),
            ConfigError::InvalidUrl { url } => {
                let mut r = "'".to_owned();
                r.append(url.as_str());
                r.append("' is not a URL");
                r
            },
        }
    }
}


/// The configuration of the whole daemon.
#[derive(Debug)]
pub struct Config {
    pub power: PowerConfig,
    pub online: OnlineConfig,
    pub fs: FsConfig,
}

/// A `Config` with its texts as sequences of characters.
pub struct ConfigView {
    pub power: PowerConfigView,
    pub online: OnlineConfigView,
    pub fs: FsConfigView,
}

impl DeepView for Config {
    type V = ConfigView;

    open spec fn deep_view(&self) -> ConfigView {
        ConfigView {
            power: self.power.deep_view(),
            online: self.online.deep_view(),
            fs: self.fs.deep_view(),
        }
    }
}

impl ConfigView {
    /// The configuration that is used where none is given.
    pub open spec fn default_config() -> ConfigView {
        ConfigView {
            power: PowerConfigView::default_config(),
            online: OnlineConfigView::default_config(),
            fs: FsConfigView::default_config(),
        }
    }

    /// The outcome of validation: the configuration with the power
    /// monitor's part validated, or what is wrong with that part.
    pub open spec fn validated(self) -> Result<ConfigView, ConfigErrorView> {
        match self.power.validated() {
            Ok(power) => Ok(ConfigView { power, ..self }),
            Err(e) => Err(e),
        }
    }
}

impl Clone for Config {
    fn clone(&self) -> (r: Self)
        ensures
            r.deep_view() == self.deep_view(),
    {
        Config { power: self.power.clone(), online: self.online.clone(), fs: self.fs.clone() }
    }
}

impl Default for Config {
    fn default() -> (r: Self)
        ensures
            r.deep_view() == ConfigView::default_config(),
    {
        Config {
            power: PowerConfig::default(),
            online: OnlineConfig::default(),
            fs: FsConfig::default(),
        }
    }
}

impl Config {
    /// Checks the part of the power monitor, and puts the default phases in
    /// place of an empty list.
    pub fn validate(self) -> (r: Result<Self, ConfigError>)
        ensures
            match r {
                Ok(c) => self.deep_view().validated() == Ok::<ConfigView, ConfigErrorView>(
                    c.deep_view(),
                ) && c.deep_view().power.valid(),
                Err(e) => self.deep_view().validated() == Err::<ConfigView, ConfigErrorView>(
                    e.deep_view(),
                ),
            },
    {
        let Config { power, online, fs } = self;
        match power.validate() {
            Ok(power) => Ok(Config { power, online, fs }),
            Err(e) => Err(e),
        }
    }
}

} // verus!
