//! The power monitor: it follows whether the machine runs on battery, and
//! through which phases the battery's capacity passes, and decides at each
//! tick which alerts are due.

pub mod cfg;
pub mod system;

use crate::cfg::{Alert, AlertView, ConfigError, ConfigErrorView};
use crate::notify::{PreparedAlert, PreparedAlertView, Variables};
use crate::power::cfg::{classified, BatteryPhaseView, PowerConfig, PowerConfigView};
use crate::power::system::{
    find_battery, find_main, first_battery, first_main, PowerSupply, PowerSupplyBattery,
};
use crate::text::{decimal, decimal_string};
use vstd::prelude::*;

verus! {

/// Where the machine takes its power from.
#[derive(Clone, Copy, Debug, PartialEq, Eq, Structural)]
pub enum PowerMode {
    Battery,
    PluggedIn,
}

/// The phase that the battery is in, since when, and when an alert for it
/// was last repeated.
#[derive(Debug)]
pub struct PhaseTransition {
    pub name: String,
    pub entered_at: u64,
    pub last_notified_at: Option<u64>,
}

/// A `PhaseTransition` with its name as a sequence of characters.
pub struct PhaseTransitionView {
    pub name: Seq<char>,
    pub entered_at: u64,
    pub last_notified_at: Option<u64>,
}

impl DeepView for PhaseTransition {
    type V = PhaseTransitionView;

    open spec fn deep_view(&self) -> PhaseTransitionView {
        PhaseTransitionView {
            name: self.name@,
            entered_at: self.entered_at,
            last_notified_at: self.last_notified_at,
        }
    }
}

impl PhaseTransitionView {
    /// The phase `name`, entered at `now` and not yet notified again.
    pub open spec fn entered(name: Seq<char>, now: u64) -> PhaseTransitionView {
        PhaseTransitionView { name, entered_at: now, last_notified_at: None }
    }

    /// The time from which the repeat interval counts: the last repeat, or
    /// the entry where the alert was not repeated yet.
    pub open spec fn reference(self) -> u64 {
        match self.last_notified_at {
            Some(t) => t,
            None => self.entered_at,
        }
    }
}

/// What the monitor remembers from one tick to the next.
pub struct PowerStateView {
    pub mode: PowerMode,
    pub battery_phase: Option<PhaseTransitionView>,
}

/// The group of all alerts about the battery.
pub open spec fn alert_group_battery() -> Seq<char> {
    "panorama.battery_status"@
}

/// Whether the machine is on external power: the first mains supply says so;
/// without a mains supply it is not.
pub open spec fn ac_online(supplies: Seq<PowerSupply>) -> bool {
    match first_main(supplies) {
        Some(m) => m.online,
        None => false,
    }
}

/// The variables of an alert about the battery: its capacity, where there is
/// a battery.
pub open spec fn battery_variables(battery: Option<PowerSupplyBattery>) -> Map<
    Seq<char>,
    Seq<char>,
> {
    match battery {
        Some(b) => Map::<Seq<char>, Seq<char>>::empty().insert(
            "capacity"@,
            decimal(b.capacity as nat),
        ),
        None => Map::empty(),
    }
}

/// The mode that a reading puts the monitor in.
pub open spec fn mode_of(online: bool) -> PowerMode {
    if online {
        PowerMode::PluggedIn
    } else {
        PowerMode::Battery
    }
}

/// The alert that a change of mode raises: none where the mode stays.
pub open spec fn mode_alert(config: PowerConfigView, mode: PowerMode, online: bool) -> Option<
    AlertView,
> {
    if mode_of(online) == mode {
        None
    } else if online {
        config.alert_battery_deactivated
    } else {
        config.alert_battery_activated
    }
}

/// Whether the alert of a phase is due again at `now`: it has a repeat
/// interval, and that much time has passed since `since`.
pub open spec fn repeat_due(alert: Option<AlertView>, since: u64, now: u64) -> bool {
    match alert {
        Some(a) => match a.repeat_after_seconds {
            Some(interval) => now - since >= interval,
            None => false,
        },
        None => false,
    }
}

/// One step of the phase that the battery is in. `matched` is the phase
/// that holds the capacity now, if the machine runs on battery and a phase
/// holds it. Gives the phase remembered from now on and the alert that is
/// due.
///
/// Without a match the phase is forgotten and nothing is raised. A phase of
/// another name than the one remembered, or the first phase, is entered: its
/// alert is raised. In the phase remembered, the alert is raised again when
/// its repeat interval has passed.
pub open spec fn phase_step(
    previous: Option<PhaseTransitionView>,
    matched: Option<BatteryPhaseView>,
    now: u64,
) -> (Option<PhaseTransitionView>, Option<AlertView>) {
    match matched {
        None => (None, None),
        Some(phase) => {
            if previous is Some && previous->0.name == phase.name {
                let p = previous->0;
                if repeat_due(phase.alert, p.reference(), now) {
                    (
                        Some(PhaseTransitionView { last_notified_at: Some(now), ..p }),
                        phase.alert,
                    )
                } else {
                    (Some(p), None)
                }
            } else {
                (Some(PhaseTransitionView::entered(phase.name, now)), phase.alert)
            }
        },
    }
}

/// The alert, where there is one, ready to be shown for the battery.
pub open spec fn prepared(alert: Option<AlertView>, variables: Map<Seq<char>, Seq<char>>) -> Seq<
    PreparedAlertView,
> {
    match alert {
        Some(a) => seq![
            PreparedAlertView { alert: a, group: alert_group_battery(), variables },
        ],
        None => Seq::empty(),
    }
}

/// The phase that holds the battery's capacity, looked up only while the
/// machine runs on battery.
pub open spec fn matched_phase(
    config: PowerConfigView,
    online: bool,
    battery: Option<PowerSupplyBattery>,
) -> Option<BatteryPhaseView> {
    if online {
        None
    } else {
        match battery {
            Some(b) => classified(config.phases, b.capacity),
            None => None,
        }
    }
}

/// One tick of the monitor: the state after it and the alerts that it
/// raises, the alert of a change of mode first.
pub open spec fn tick_result(
    config: PowerConfigView,
    state: PowerStateView,
    supplies: Seq<PowerSupply>,
    now: u64,
) -> (PowerStateView, Seq<PreparedAlertView>) {
    let online = ac_online(supplies);
    let battery = first_battery(supplies);
    let variables = battery_variables(battery);
    let step = phase_step(state.battery_phase, matched_phase(config, online, battery), now);
    (
        PowerStateView { mode: mode_of(online), battery_phase: step.0 },
        prepared(mode_alert(config, state.mode, online), variables) + prepared(step.1, variables),
    )
}

/// The state of the power monitor with its configuration.
pub struct PowerManager {
    config: PowerConfig,
    battery_phase: Option<PhaseTransition>,
    mode: PowerMode,
}

fn capacity_variables(battery: Option<PowerSupplyBattery>) -> (r: Variables)
    ensures
        r@ == battery_variables(battery),
{
    let mut variables = Variables::new();
    if let Some(bat) = battery {
        variables.insert("capacity".to_owned(), decimal_string(bat.capacity as u64));
    }
    variables
}

impl PowerManager {
    /// The configuration that the monitor works with.
    pub closed spec fn config_view(&self) -> PowerConfigView {
        self.config.deep_view()
    }

    /// What the monitor remembers.
    pub closed spec fn state(&self) -> PowerStateView {
        PowerStateView { mode: self.mode, battery_phase: self.battery_phase.deep_view() }
    }

    #[verifier::type_invariant]
    spec fn inv(self) -> bool {
        self.config.deep_view().valid()
    }

    /// A monitor for a configuration that passes validation. It starts as
    /// on external power and in no phase.
    pub fn new(config: PowerConfig) -> (r: Result<Self, ConfigError>)
        ensures
            match r {
                Ok(m) => config.deep_view().validated() == Ok::<PowerConfigView, ConfigErrorView>(
                    m.config_view(),
                ) && m.config_view().valid() && m.state() == (PowerStateView {
                    mode: PowerMode::PluggedIn,
                    battery_phase: None,
                }),
                Err(e) => config.deep_view().validated() == Err::<
                    PowerConfigView,
                    ConfigErrorView,
                >(e.deep_view()),
            },
    {
        match config.validate() {
            Ok(config) => Ok(
                PowerManager { config, battery_phase: None, mode: PowerMode::PluggedIn },
            ),
            Err(e) => Err(e),
        }
    }

    /// The configuration that the monitor works with.
    pub fn config(&self) -> (r: &PowerConfig)
        ensures
            r.deep_view() == self.config_view(),
            r.deep_view().valid(),
    {
        proof {
            use_type_invariant(self);
        }
        &self.config
    }

    /// Where the machine took its power from at the last tick.
    pub fn mode(&self) -> (r: PowerMode)
        ensures
            r == self.state().mode,
    {
        self.mode
    }

    /// The phase that the battery was in at the last tick.
    pub fn battery_phase(&self) -> (r: &Option<PhaseTransition>)
        ensures
            r.deep_view() == self.state().battery_phase,
    {
        &self.battery_phase
    }

    /// One tick: takes the power supplies as read at the time `now`, in
    /// seconds, and gives the alerts to send, in order. The first mains
    /// supply and the first battery count.
    pub fn tick(&mut self, supplies: &Vec<PowerSupply>, now: u64) -> (alerts: Vec<PreparedAlert>)
        ensures
            final(self).config_view() == old(self).config_view(),
            final(self).state() == tick_result(
                old(self).config_view(),
                old(self).state(),
                supplies@,
                now,
            ).0,
            alerts.deep_view() == tick_result(
                old(self).config_view(),
                old(self).state(),
                supplies@,
                now,
            ).1,
    {
        proof {
            use_type_invariant(&*self);
        }
        let mut alerts: Vec<PreparedAlert> = Vec::new();
        let online = match find_main(supplies) {
            Some(m) => m.online,
            None => false,
        };
        let battery = find_battery(supplies);
        let ghost variables = battery_variables(battery);
        let ghost config = self.config.deep_view();

        if online && self.mode != PowerMode::PluggedIn {
            self.mode = PowerMode::PluggedIn;
            if let Some(alert) = &self.config.alert_battery_deactivated {
                alerts.push(alert.prepare(alert_group(), capacity_variables(battery)));
            }
        } else if !online && self.mode != PowerMode::Battery {
            self.mode = PowerMode::Battery;
            if let Some(alert) = &self.config.alert_battery_activated {
                alerts.push(alert.prepare(alert_group(), capacity_variables(battery)));
            }
        }
        assert(alerts.deep_view() =~= prepared(
            mode_alert(config, old(self).mode, online),
            variables,
        ));
        let ghost first = alerts.deep_view();

        let matched = if online {
            None
        } else {
            match battery {
                Some(bat) => crate::power::cfg::classify(&self.config.phases, bat.capacity),
                None => None,
            }
        };
        assert(matched.deep_view() == matched_phase(config, online, battery));
        let ghost step = phase_step(old(self).battery_phase.deep_view(), matched.deep_view(), now);

        match matched {
            None => {
                self.battery_phase = None;
            },
            Some(phase) => {
                let repeat_since: Option<u64> = match &self.battery_phase {
                    Some(status) => if status.name == phase.name {
                        Some(status.reference())
                    } else {
                        None
                    },
                    None => None,
                };
                match repeat_since {
                    Some(since) => {
                        if repeat_is_due(&phase.alert, since, now) {
                            if let Some(alert) = &phase.alert {
                                alerts.push(
                                    alert.prepare(alert_group(), capacity_variables(battery)),
                                );
                            }
                            note_repeat(&mut self.battery_phase, now);
                        }
                    },
                    None => {
                        self.battery_phase = Some(PhaseTransition::enter(&phase.name, now));
                        if let Some(alert) = &phase.alert {
                            alerts.push(alert.prepare(alert_group(), capacity_variables(battery)));
                        }
                    },
                }
            },
        }
        assert(self.battery_phase.deep_view() == step.0);
        assert(alerts.deep_view() =~= first + prepared(step.1, variables));
        alerts
    }
}

fn alert_group() -> (r: String)
    ensures
        r@ == alert_group_battery(),
{
    "panorama.battery_status".to_owned()
}

fn note_repeat(phase: &mut Option<PhaseTransition>, now: u64)
    ensures
        final(phase).deep_view() == (match old(phase).deep_view() {
            Some(p) => Some(PhaseTransitionView { last_notified_at: Some(now), ..p }),
            None => None,
        }),
    no_unwind
{
    if let Some(status) = phase {
        status.last_notified_at = Some(now);
    }
}

fn repeat_is_due(alert: &Option<Alert>, since: u64, now: u64) -> (r: bool)
    ensures
        r == repeat_due(alert.deep_view(), since, now),
{
    match alert {
        Some(a) => match a.repeat_after_seconds {
            Some(interval) => now >= since && now - since >= interval,
            None => false,
        },
        None => false,
    }
}

impl PhaseTransition {
    /// The time from which the repeat interval counts.
    pub fn reference(&self) -> (r: u64)
        ensures
            r == self.deep_view().reference(),
    {
        match self.last_notified_at {
            Some(t) => t,
            None => self.entered_at,
        }
    }

    /// The phase `name`, entered at `now`.
    pub fn enter(name: &String, now: u64) -> (r: Self)
        ensures
            r.deep_view() == PhaseTransitionView::entered(name@, now),
    {
        PhaseTransition { name: name.clone(), entered_at: now, last_notified_at: None }
    }

}

impl Clone for PhaseTransition {
    fn clone(&self) -> (r: Self)
        ensures
            r.deep_view() == self.deep_view(),
    {
        PhaseTransition {
            name: self.name.clone(),
            entered_at: self.entered_at,
            last_notified_at: self.last_notified_at,
        }
    }
}


/// While the battery stays in the phase that it entered at `entered_at`,
/// a tick before the repeat interval has passed raises nothing and changes
/// nothing; the first tick at or after it raises the alert once more and
/// starts the interval anew, so that a tick shortly after raises nothing.
pub proof fn lemma_repeat_only_after_interval(
    phase: BatteryPhaseView,
    alert: AlertView,
    interval: u64,
    entered_at: u64,
    early: u64,
    due: u64,
    after: u64,
)
    requires
        phase.alert == Some(alert),
        alert.repeat_after_seconds == Some(interval),
        early - entered_at < interval,
        due - entered_at >= interval,
        after - due < interval,
    ensures
        ({
            let entry = phase_step(None, Some(phase), entered_at);
            let quiet = phase_step(entry.0, Some(phase), early);
            let repeat = phase_step(quiet.0, Some(phase), due);
            let rest = phase_step(repeat.0, Some(phase), after);
            &&& entry.0 == Some(PhaseTransitionView::entered(phase.name, entered_at))
            &&& entry.1 == Some(alert)
            &&& quiet == (entry.0, None::<AlertView>)
            &&& repeat.1 == Some(alert)
            &&& repeat.0 == Some(
                PhaseTransitionView {
                    name: phase.name,
                    entered_at,
                    last_notified_at: Some(due),
                },
            )
            &&& rest == (repeat.0, None::<AlertView>)
        }),
{
}

/// In the phase remembered, an alert is raised exactly when the phase has an
/// alert with a repeat interval and that interval has passed since the last
/// repeat, or since the entry where there was none. A phase without a repeat
/// interval is never raised again.
pub proof fn lemma_same_phase_repeats_when_due(
    previous: PhaseTransitionView,
    phase: BatteryPhaseView,
    now: u64,
)
    requires
        previous.name == phase.name,
    ensures
        phase_step(Some(previous), Some(phase), now).1 is Some <==> repeat_due(
            phase.alert,
            previous.reference(),
            now,
        ),
        phase_step(Some(previous), Some(phase), now).1 is None ==> phase_step(
            Some(previous),
            Some(phase),
            now,
        ).0 == Some(previous),
        phase_step(Some(previous), Some(phase), now).1 is Some ==> phase_step(
            Some(previous),
            Some(phase),
            now,
        ) == (
            Some(PhaseTransitionView { last_notified_at: Some(now), ..previous }),
            phase.alert,
        ),
{
}

/// A battery that passes from the phase `a` to the phase `b` and back raises
/// the alert of `b` and then the alert of `a`, whatever the times of the two
/// ticks and whatever was remembered of `a`: a change of name starts afresh.
pub proof fn lemma_change_of_phase_always_alerts(
    remembered: PhaseTransitionView,
    a: BatteryPhaseView,
    b: BatteryPhaseView,
    first: u64,
    second: u64,
)
    requires
        remembered.name == a.name,
        a.name != b.name,
    ensures
        ({
            let there = phase_step(Some(remembered), Some(b), first);
            let back = phase_step(there.0, Some(a), second);
            &&& there == (Some(PhaseTransitionView::entered(b.name, first)), b.alert)
            &&& back == (Some(PhaseTransitionView::entered(a.name, second)), a.alert)
        }),
{
}

/// Leaving every phase raises nothing and forgets the phase.
pub proof fn lemma_leaving_is_silent(previous: Option<PhaseTransitionView>, now: u64)
    ensures
        phase_step(previous, None, now) == (None::<PhaseTransitionView>, None::<AlertView>),
{
}

/// The alert of a change of mode is raised once for each change: a tick
/// that finds the mode of the tick before raises none, and after any tick
/// the same reading raises none.
pub proof fn lemma_mode_alert_once_per_edge(
    config: PowerConfigView,
    state: PowerStateView,
    supplies: Seq<PowerSupply>,
    now: u64,
    later: u64,
)
    ensures
        mode_of(ac_online(supplies)) == state.mode ==> mode_alert(
            config,
            state.mode,
            ac_online(supplies),
        ) is None,
        mode_alert(
            config,
            tick_result(config, state, supplies, now).0.mode,
            ac_online(supplies),
        ) is None,
        ac_online(supplies) ==> tick_result(config, state, supplies, now).0.battery_phase
            is None,
{
}


/// A tick on battery takes one step of the phase with the phase that holds
/// the capacity of the first battery, and raises what that step raises
/// after the alert of a change of mode. A tick on external power forgets
/// the phase and raises the alert of a change of mode at most.
pub proof fn lemma_tick_steps_the_phase(
    config: PowerConfigView,
    state: PowerStateView,
    supplies: Seq<PowerSupply>,
    now: u64,
)
    ensures
        ({
            let after = tick_result(config, state, supplies, now);
            let variables = battery_variables(first_battery(supplies));
            let edge = prepared(mode_alert(config, state.mode, ac_online(supplies)), variables);
            &&& !ac_online(supplies) && first_battery(supplies) is Some ==> {
                let step = phase_step(
                    state.battery_phase,
                    classified(config.phases, first_battery(supplies)->0.capacity),
                    now,
                );
                &&& after.0 == (PowerStateView { mode: PowerMode::Battery, battery_phase: step.0 })
                &&& after.1 == edge + prepared(step.1, variables)
            }
            &&& ac_online(supplies) ==> {
                &&& after.0 == (PowerStateView { mode: PowerMode::PluggedIn, battery_phase: None })
                &&& after.1 == edge
            }
            &&& after.1.len() <= 2
        }),
{
    let variables = battery_variables(first_battery(supplies));
    let edge = prepared(mode_alert(config, state.mode, ac_online(supplies)), variables);
    assert(edge + Seq::<PreparedAlertView>::empty() =~= edge);
}

} // verus!
