//! The reachability monitor: it probes a list of URLs, bears a bounded
//! number of failed probes, and raises an alert when the machine goes
//! offline or comes back.

pub mod cfg;

use crate::cfg::{AlertView, ConfigError, ConfigErrorView};
use crate::internet::cfg::{OnlineConfig, OnlineConfigView};
use crate::notify::{PreparedAlert, PreparedAlertView, Variables};
use vstd::prelude::*;

verus! {

/// What the monitor does next within one tick.
#[derive(Clone, Copy, Debug, PartialEq, Eq, Structural)]
pub enum ProbeStep {
    /// Wait for `delay_seconds`, then probe the URL at `index`. It is the
    /// probe number `attempt` of the tick, counted from zero.
    Probe { attempt: usize, index: usize, delay_seconds: u64 },
    /// The tick's verdict is in.
    Finished { online: bool },
}

/// The first step of a tick: the first URL is probed at once.
pub open spec fn first_step(config: OnlineConfigView) -> ProbeStep {
    if config.urls.len() == 0 {
        ProbeStep::Finished { online: false }
    } else {
        ProbeStep::Probe { attempt: 0, index: 0, delay_seconds: 0 }
    }
}

/// The step after the probe number `attempt` has passed or failed. A probe
/// that passed ends the tick as online. After a failed one the next URL of
/// the list, the first one after the last, is probed once the retry
/// interval has passed, unless `retry_count` retries were made: then the
/// tick ends as offline.
pub open spec fn next_step(config: OnlineConfigView, attempt: usize, passed: bool) -> ProbeStep {
    if passed {
        ProbeStep::Finished { online: true }
    } else if attempt < config.retry_count && config.urls.len() > 0 {
        ProbeStep::Probe {
            attempt: (attempt + 1) as usize,
            index: ((attempt + 1) % (config.urls.len() as int)) as usize,
            delay_seconds: config.retry_interval_seconds,
        }
    } else {
        ProbeStep::Finished { online: false }
    }
}

/// How the probe number `k` comes out, as `outcomes` tells.
pub open spec fn outcome(outcomes: spec_fn(usize) -> bool, k: usize) -> bool {
    outcomes(k)
}

/// The verdict of a tick whose probes from number `attempt` on come out as
/// `outcomes` tells, and the number of probes that the tick makes in all.
pub open spec fn verdict_from(
    config: OnlineConfigView,
    attempt: usize,
    outcomes: spec_fn(usize) -> bool,
) -> (bool, nat)
    decreases config.retry_count - attempt,
{
    match next_step(config, attempt, outcome(outcomes, attempt)) {
        ProbeStep::Finished { online } => (online, (attempt + 1) as nat),
        ProbeStep::Probe { attempt: next, .. } => verdict_from(config, next, outcomes),
    }
}

/// The verdict of a tick whose probes come out as `outcomes` tells, and the
/// number of probes that it makes.
pub open spec fn verdict(config: OnlineConfigView, outcomes: spec_fn(usize) -> bool) -> (
    bool,
    nat,
) {
    match first_step(config) {
        ProbeStep::Finished { online } => (online, 0),
        ProbeStep::Probe { attempt, .. } => verdict_from(config, attempt, outcomes),
    }
}

/// What the monitor remembers from one tick to the next.
pub struct OnlineStateView {
    /// Since when the machine is offline; nothing while it is online.
    pub offline_since: Option<u64>,
    /// How many ticks were made.
    pub check_count: usize,
}

/// The group of all alerts about the network.
pub open spec fn alert_group_internet() -> Seq<char> {
    "panorama.internet"@
}

/// The alert, where there is one, ready to be shown for the network.
pub open spec fn prepared(alert: Option<AlertView>) -> Option<PreparedAlertView> {
    match alert {
        Some(a) => Some(
            PreparedAlertView {
                alert: a,
                group: alert_group_internet(),
                variables: Map::empty(),
            },
        ),
        None => None,
    }
}

/// One more tick, as far as the count can go.
pub open spec fn counted(count: usize) -> usize {
    if count < usize::MAX {
        (count + 1) as usize
    } else {
        count
    }
}

/// The end of a tick with the verdict `online` at the time `now`: the state
/// after it and the alert that it raises. Going offline and coming back
/// raise an alert; a verdict that repeats the last one raises none.
pub open spec fn observe_result(
    config: OnlineConfigView,
    state: OnlineStateView,
    online: bool,
    now: u64,
) -> (OnlineStateView, Option<PreparedAlertView>) {
    let check_count = counted(state.check_count);
    if online && state.offline_since is Some {
        (OnlineStateView { offline_since: None, check_count }, prepared(config.alert_reconnected))
    } else if !online && state.offline_since is None {
        (
            OnlineStateView { offline_since: Some(now), check_count },
            prepared(config.alert_disconnected),
        )
    } else {
        (OnlineStateView { offline_since: state.offline_since, check_count }, None)
    }
}

/// The state of the reachability monitor with its configuration.
pub struct OnlineManager {
    config: OnlineConfig,
    offline_since: Option<u64>,
    check_count: usize,
}

impl OnlineManager {
    /// The configuration that the monitor works with.
    pub closed spec fn config_view(&self) -> OnlineConfigView {
        self.config.deep_view()
    }

    /// What the monitor remembers.
    pub closed spec fn state(&self) -> OnlineStateView {
        OnlineStateView { offline_since: self.offline_since, check_count: self.check_count }
    }

    #[verifier::type_invariant]
    spec fn inv(self) -> bool {
        self.config.deep_view().valid()
    }

    /// A monitor for a configuration that passes validation. It starts as
    /// online, with no tick made.
    pub fn new(config: OnlineConfig) -> (r: Result<Self, ConfigError>)
        ensures
            match r {
                Ok(m) => config.deep_view().validated() == Ok::<OnlineConfigView, ConfigErrorView>(
                    m.config_view(),
                ) && m.config_view().valid() && m.state() == (OnlineStateView {
                    offline_since: None,
                    check_count: 0,
                }),
                Err(e) => config.deep_view().validated() == Err::<
                    OnlineConfigView,
                    ConfigErrorView,
                >(e.deep_view()),
            },
    {
        match config.validate() {
            Ok(config) => Ok(OnlineManager { config, offline_since: None, check_count: 0 }),
            Err(e) => Err(e),
        }
    }

    /// The configuration that the monitor works with.
    pub fn config(&self) -> (r: &OnlineConfig)
        ensures
            r.deep_view() == self.config_view(),
            r.deep_view().valid(),
    {
        proof {
            use_type_invariant(self);
        }
        &self.config
    }

    /// Since when the machine is offline; nothing while it is online.
    pub fn offline_since(&self) -> (r: Option<u64>)
        ensures
            r == self.state().offline_since,
    {
        self.offline_since
    }

    /// How many ticks were made.
    pub fn check_count(&self) -> (r: usize)
        ensures
            r == self.state().check_count,
    {
        self.check_count
    }

    /// How long to pause before the next tick: the shorter interval of the
    /// configuration while the machine is offline.
    pub fn pause_seconds(&self) -> (r: u64)
        ensures
            r == (if self.state().offline_since is Some {
                self.config_view().check_interval_seconds_offline
            } else {
                self.config_view().check_interval_seconds_online
            }),
    {
        if self.offline_since.is_some() {
            self.config.check_interval_seconds_offline
        } else {
            self.config.check_interval_seconds_online
        }
    }

    /// The first step of a tick.
    pub fn first_probe(&self) -> (r: ProbeStep)
        ensures
            r == first_step(self.config_view()),
            r is Probe,
    {
        proof {
            use_type_invariant(self);
        }
        if self.config.urls.len() == 0 {
            ProbeStep::Finished { online: false }
        } else {
            ProbeStep::Probe { attempt: 0, index: 0, delay_seconds: 0 }
        }
    }

    /// The step after the probe number `attempt` of the tick has passed or
    /// failed.
    pub fn next_probe(&self, attempt: usize, passed: bool) -> (r: ProbeStep)
        ensures
            r == next_step(self.config_view(), attempt, passed),
            r matches ProbeStep::Probe { index, .. } ==> index < self.config_view().urls.len(),
    {
        if passed {
            ProbeStep::Finished { online: true }
        } else if attempt < self.config.retry_count && self.config.urls.len() > 0 {
            ProbeStep::Probe {
                attempt: attempt + 1,
                index: (attempt + 1) % self.config.urls.len(),
                delay_seconds: self.config.retry_interval_seconds,
            }
        } else {
            ProbeStep::Finished { online: false }
        }
    }

    /// Ends a tick with the verdict `online` at the time `now`, in seconds,
    /// and gives the alert to send, if one is due.
    pub fn observe(&mut self, online: bool, now: u64) -> (alert: Option<PreparedAlert>)
        ensures
            final(self).config_view() == old(self).config_view(),
            final(self).state() == observe_result(
                old(self).config_view(),
                old(self).state(),
                online,
                now,
            ).0,
            alert.deep_view() == observe_result(
                old(self).config_view(),
                old(self).state(),
                online,
                now,
            ).1,
    {
        proof {
            use_type_invariant(&*self);
        }
        let mut alert: Option<PreparedAlert> = None;
        if online {
            if self.offline_since.is_some() {
                self.offline_since = None;
                if let Some(rule) = &self.config.alert_reconnected {
                    alert = Some(rule.prepare(alert_group(), Variables::new()));
                }
            }
        } else if self.offline_since.is_none() {
            self.offline_since = Some(now);
            if let Some(rule) = &self.config.alert_disconnected {
                alert = Some(rule.prepare(alert_group(), Variables::new()));
            }
        }
        if self.check_count < usize::MAX {
            self.check_count = self.check_count + 1;
        }
        alert
    }
}

fn alert_group() -> (r: String)
    ensures
        r@ == alert_group_internet(),
{
    "panorama.internet".to_owned()
}

/// Where the probes from number `attempt` on all fail, the tick ends as
/// offline after the probe number `retry_count`.
pub proof fn lemma_failures_from(
    config: OnlineConfigView,
    attempt: usize,
    outcomes: spec_fn(usize) -> bool,
)
    requires
        config.urls.len() > 0,
        attempt <= config.retry_count,
        forall|k: usize| attempt <= k <= config.retry_count ==> !#[trigger] outcome(outcomes, k),
    ensures
        verdict_from(config, attempt, outcomes) == (false, (config.retry_count + 1) as nat),
    decreases config.retry_count - attempt,
{
    if attempt < config.retry_count {
        lemma_failures_from(config, (attempt + 1) as usize, outcomes);
    }
}

/// Where the probes from number `attempt` on fail up to the probe number
/// `first`, which passes, the tick ends as online with that probe.
pub proof fn lemma_success_from(
    config: OnlineConfigView,
    attempt: usize,
    first: usize,
    outcomes: spec_fn(usize) -> bool,
)
    requires
        config.urls.len() > 0,
        attempt <= first <= config.retry_count,
        outcome(outcomes, first),
        forall|k: usize| attempt <= k < first ==> !#[trigger] outcome(outcomes, k),
    ensures
        verdict_from(config, attempt, outcomes) == (true, (first + 1) as nat),
    decreases first - attempt,
{
    if attempt < first {
        lemma_success_from(config, (attempt + 1) as usize, first, outcomes);
    }
}

/// A tick whose probes all fail makes one probe and `retry_count` retries
/// and ends as offline. A tick in which a probe passes after no more than
/// `retry_count` failed ones ends as online with that probe and makes no
/// further one.
pub proof fn lemma_bounded_retries(
    config: OnlineConfigView,
    outcomes: spec_fn(usize) -> bool,
    first: usize,
)
    requires
        config.urls.len() > 0,
    ensures
        (forall|k: usize| k <= config.retry_count ==> !#[trigger] outcome(outcomes, k)) ==> verdict(config, outcomes)
            == (false, (config.retry_count + 1) as nat),
        first <= config.retry_count && outcome(outcomes, first) && (forall|k: usize|
            k < first ==> !#[trigger] outcome(outcomes, k)) ==> verdict(config, outcomes) == (
            true,
            (first + 1) as nat,
        ),
{
    if forall|k: usize| k <= config.retry_count ==> !#[trigger] outcome(outcomes, k) {
        lemma_failures_from(config, 0, outcomes);
    }
    if first <= config.retry_count && outcome(outcomes, first) && (forall|k: usize|
        k < first ==> !#[trigger] outcome(outcomes, k)) {
        lemma_success_from(config, 0, first, outcomes);
    }
}

/// An alert is raised once for each change between online and offline: a
/// verdict that repeats the one before raises none.
pub proof fn lemma_online_alert_once_per_edge(
    config: OnlineConfigView,
    state: OnlineStateView,
    online: bool,
    now: u64,
    later: u64,
)
    ensures
        ({
            let first = observe_result(config, state, online, now);
            let second = observe_result(config, first.0, online, later);
            &&& first.0.offline_since is None <==> online
            &&& second.1 is None
            &&& second.0.offline_since == first.0.offline_since
            &&& first.1 is Some ==> (state.offline_since is Some <==> online)
        }),
{
}

} // verus!
