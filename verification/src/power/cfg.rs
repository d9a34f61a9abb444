//! The configuration of the power monitor: the battery phases, which are
//! named ranges of the battery's capacity, each with its own alert rule.

use crate::cfg::{clone_alert, Alert, AlertSeverity, AlertView, ConfigError, ConfigErrorView};
use vstd::hash_set::StringHashSet;
use vstd::prelude::*;

verus! {

/// A named range of the battery's capacity, both ends included, with the
/// alert that entering it raises.
#[derive(Debug)]
pub struct BatteryPhase {
    pub name: String,
    pub from: u8,
    pub to: u8,
    pub alert: Option<Alert>,
}

/// A `BatteryPhase` with its texts as sequences of characters.
pub struct BatteryPhaseView {
    pub name: Seq<char>,
    pub from: u8,
    pub to: u8,
    pub alert: Option<AlertView>,
}

impl DeepView for BatteryPhase {
    type V = BatteryPhaseView;

    open spec fn deep_view(&self) -> BatteryPhaseView {
        BatteryPhaseView {
            name: self.name@,
            from: self.from,
            to: self.to,
            alert: self.alert.deep_view(),
        }
    }
}

impl Clone for BatteryPhase {
    fn clone(&self) -> (r: Self)
        ensures
            r.deep_view() == self.deep_view(),
    {
        BatteryPhase {
            name: self.name.clone(),
            from: self.from,
            to: self.to,
            alert: clone_alert(&self.alert),
        }
    }
}

impl BatteryPhaseView {
    /// Whether `value` lies in the range of this phase.
    pub open spec fn contains(self, value: u8) -> bool {
        self.from <= value <= self.to
    }
}

/// A comparison of a capacity with a bound.
#[derive(Clone, Copy, Debug, PartialEq, Eq, Structural)]
pub enum Range {
    Eq(u8),
    Gt(u8),
    Lt(u8),
}

/// A list of phases is valid when no range is inverted, each phase starts
/// above the end of the one before it, and no name occurs twice.
pub open spec fn phases_valid(phases: Seq<BatteryPhaseView>) -> bool {
    &&& forall|i: int| 0 <= i < phases.len() ==> (#[trigger] phases[i]).from <= phases[i].to
    &&& forall|i: int|
        0 < i < phases.len() ==> phases[i - 1].to < (#[trigger] phases[i]).from
    &&& forall|i: int, j: int|
        0 <= i < j < phases.len() ==> (#[trigger] phases[i]).name != (#[trigger] phases[j]).name
}

/// What is wrong with the phase at index `i`, given the phases before it:
/// first a name that occurred before, then an inverted range, then a start
/// that does not lie above the end of the phase before.
pub open spec fn phase_fault(phases: Seq<BatteryPhaseView>, i: int) -> Option<ConfigErrorView> {
    let p = phases[i];
    if exists|j: int| 0 <= j < i && (#[trigger] phases[j]).name == p.name {
        Some(ConfigErrorView::DuplicatePhase { name: p.name })
    } else if p.from > p.to {
        Some(ConfigErrorView::InvalidRange { name: p.name, from: p.from, to: p.to })
    } else if i > 0 && p.from <= phases[i - 1].to {
        Some(
            ConfigErrorView::OverlappingRange {
                name: p.name,
                previous: phases[i - 1].name,
                from: p.from,
                to: p.to,
            },
        )
    } else {
        None
    }
}

/// The fault of the first faulty phase at or after index `i`.
pub open spec fn first_fault_from(phases: Seq<BatteryPhaseView>, i: int) -> Option<
    ConfigErrorView,
>
    decreases phases.len() - i,
{
    if i < 0 || i >= phases.len() {
        None
    } else if phase_fault(phases, i) is Some {
        phase_fault(phases, i)
    } else {
        first_fault_from(phases, i + 1)
    }
}

/// The fault of the first faulty phase of the list.
pub open spec fn first_fault(phases: Seq<BatteryPhaseView>) -> Option<ConfigErrorView> {
    first_fault_from(phases, 0)
}

/// The first phase at or after index `i` whose range holds `value`.
pub open spec fn classified_from(phases: Seq<BatteryPhaseView>, value: u8, i: int) -> Option<
    BatteryPhaseView,
>
    decreases phases.len() - i,
{
    if i < 0 || i >= phases.len() {
        None
    } else if phases[i].contains(value) {
        Some(phases[i])
    } else {
        classified_from(phases, value, i + 1)
    }
}

/// The first phase of the list whose range holds `value`.
pub open spec fn classified(phases: Seq<BatteryPhaseView>, value: u8) -> Option<BatteryPhaseView> {
    classified_from(phases, value, 0)
}

/// The names of the first `n` phases.
pub open spec fn names_before(phases: Seq<BatteryPhaseView>, n: int) -> Set<Seq<char>> {
    Set::new(|name: Seq<char>| exists|j: int| 0 <= j < n && (#[trigger] phases[j]).name == name)
}

/// Checks a list of phases in the order given: the first faulty phase
/// decides the error.
pub fn validate_phases(phases: &Vec<BatteryPhase>) -> (r: Result<(), ConfigError>)
    ensures
        match r {
            Ok(()) => first_fault(phases.deep_view()) is None,
            Err(e) => first_fault(phases.deep_view()) == Some(e.deep_view()),
        },
{
    let ghost view = phases.deep_view();
    let mut names = StringHashSet::new();
    let mut index: usize = 0;
    assert(names@ =~= names_before(view, 0));
    while index < phases.len()
        invariant
            index <= phases.len(),
            view == phases.deep_view(),
            names@ == names_before(view, index as int),
            first_fault_from(view, index as int) == first_fault(view),
        decreases phases.len() - index,
    {
        let phase = &phases[index];
        assert(view[index as int] == phase.deep_view());
        let fresh = names.insert(phase.name.clone());
        assert(names@ =~= names_before(view, index + 1)) by {
            assert forall|name: Seq<char>| names@.contains(name) implies names_before(
                view,
                index + 1,
            ).contains(name) by {
                if name == phase.name@ {
                    assert(view[index as int].name == name);
                } else {
                    let j = choose|j: int| 0 <= j < index && (#[trigger] view[j]).name == name;
                    assert(view[j].name == name);
                }
            }
        }
        if !fresh {
            return Err(ConfigError::DuplicatePhase { name: phase.name.clone() });
        }
        if phase.from > phase.to {
            return Err(
                ConfigError::InvalidRange {
                    name: phase.name.clone(),
                    from: phase.from,
                    to: phase.to,
                },
            );
        }
        if index > 0 {
            let prev = &phases[index - 1];
            assert(view[index - 1] == prev.deep_view());
            if phase.from <= prev.to {
                return Err(
                    ConfigError::OverlappingRange {
                        name: phase.name.clone(),
                        previous: prev.name.clone(),
                        from: phase.from,
                        to: phase.to,
                    },
                );
            }
        }
        index += 1;
    }
    Ok(())
}

/// The first phase of the list whose range holds `value`, if there is one.
pub fn classify(phases: &Vec<BatteryPhase>, value: u8) -> (r: Option<&BatteryPhase>)
    ensures
        r.deep_view() == classified(phases.deep_view(), value),
{
    let ghost view = phases.deep_view();
    let mut index: usize = 0;
    while index < phases.len()
        invariant
            index <= phases.len(),
            view == phases.deep_view(),
            classified_from(view, value, index as int) == classified(view, value),
        decreases phases.len() - index,
    {
        let phase = &phases[index];
        assert(view[index as int] == phase.deep_view());
        if phase.from <= value && value <= phase.to {
            return Some(phase);
        }
        index += 1;
    }
    None
}


/// From index `i` on no phase is faulty exactly when the search for the
/// first fault from `i` finds none, and a fault that it finds is that of the
/// first faulty phase.
pub proof fn lemma_first_fault_from(phases: Seq<BatteryPhaseView>, i: int)
    requires
        0 <= i <= phases.len(),
    ensures
        first_fault_from(phases, i) is None <==> forall|k: int|
            i <= k < phases.len() ==> phase_fault(phases, k) is None,
        first_fault_from(phases, i) is Some ==> exists|k: int|
            i <= k < phases.len() && first_fault_from(phases, i) == phase_fault(phases, k)
                && phase_fault(phases, k) is Some && forall|j: int|
                i <= j < k ==> phase_fault(phases, j) is None,
    decreases phases.len() - i,
{
    if i < phases.len() {
        lemma_first_fault_from(phases, i + 1);
        if phase_fault(phases, i) is Some {
            assert(first_fault_from(phases, i) == phase_fault(phases, i));
        } else {
            if first_fault_from(phases, i + 1) is Some {
                let k = choose|k: int|
                    i + 1 <= k < phases.len() && first_fault_from(phases, i + 1) == phase_fault(
                        phases,
                        k,
                    ) && phase_fault(phases, k) is Some && forall|j: int|
                        i + 1 <= j < k ==> phase_fault(phases, j) is None;
                assert(i <= k < phases.len() && first_fault_from(phases, i) == phase_fault(
                    phases,
                    k,
                ) && phase_fault(phases, k) is Some && forall|j: int|
                    i <= j < k ==> phase_fault(phases, j) is None);
            }
        }
    }
}

/// A list of phases is valid exactly when none of its phases is faulty.
pub proof fn lemma_valid_iff_faultless(phases: Seq<BatteryPhaseView>)
    ensures
        phases_valid(phases) <==> first_fault(phases) is None,
{
    lemma_first_fault_from(phases, 0);
    if first_fault(phases) is None {
        assert forall|i: int| 0 <= i < phases.len() implies (#[trigger] phases[i]).from
            <= phases[i].to by {
            assert(phase_fault(phases, i) is None);
        }
        assert forall|i: int| 0 < i < phases.len() implies phases[i - 1].to < (
        #[trigger] phases[i]).from by {
            assert(phase_fault(phases, i) is None);
        }
        assert forall|i: int, j: int| 0 <= i < j < phases.len() implies (
        #[trigger] phases[i]).name != (#[trigger] phases[j]).name by {
            assert(phase_fault(phases, j) is None);
        }
    }
    if phases_valid(phases) {
        assert forall|k: int| 0 <= k < phases.len() implies phase_fault(phases, k) is None by {
            if exists|j: int| 0 <= j < k && (#[trigger] phases[j]).name == phases[k].name {
                let j = choose|j: int| 0 <= j < k && (#[trigger] phases[j]).name == phases[k].name;
                assert(phases[j].name != phases[k].name);
            }
        }
    }
}

/// In a valid list every phase lies wholly below each later one.
pub proof fn lemma_valid_phases_ascend(phases: Seq<BatteryPhaseView>, i: int, j: int)
    requires
        phases_valid(phases),
        0 <= i < j < phases.len(),
    ensures
        phases[i].to < phases[j].from,
    decreases j - i,
{
    if i + 1 < j {
        lemma_valid_phases_ascend(phases, i, j - 1);
        assert(phases[j - 1].from <= phases[j - 1].to);
        assert(phases[j - 1].to < phases[j].from);
    } else {
        assert(phases[j - 1].to < phases[j].from);
    }
}

/// What the search from index `i` finds is the first phase at or after `i`
/// that holds `value`; it finds none exactly when no such phase holds it.
pub proof fn lemma_classified_from(phases: Seq<BatteryPhaseView>, value: u8, i: int)
    requires
        0 <= i <= phases.len(),
    ensures
        classified_from(phases, value, i) is None <==> forall|k: int|
            i <= k < phases.len() ==> !(#[trigger] phases[k]).contains(value),
        classified_from(phases, value, i) is Some ==> exists|k: int|
            i <= k < phases.len() && classified_from(phases, value, i) == Some(
                #[trigger] phases[k],
            ) && phases[k].contains(value) && forall|j: int|
                i <= j < k ==> !(#[trigger] phases[j]).contains(value),
    decreases phases.len() - i,
{
    if i < phases.len() {
        lemma_classified_from(phases, value, i + 1);
        if phases[i].contains(value) {
            assert(classified_from(phases, value, i) == Some(phases[i]));
        } else {
            if classified_from(phases, value, i + 1) is Some {
                let k = choose|k: int|
                    i + 1 <= k < phases.len() && classified_from(phases, value, i + 1) == Some(
                        #[trigger] phases[k],
                    ) && phases[k].contains(value) && forall|j: int|
                        i + 1 <= j < k ==> !(#[trigger] phases[j]).contains(value);
                assert(i <= k < phases.len() && classified_from(phases, value, i) == Some(
                    phases[k],
                ) && phases[k].contains(value) && forall|j: int|
                    i <= j < k ==> !(#[trigger] phases[j]).contains(value));
            }
        }
    }
}

/// In a valid list of phases, a value that lies in the range of a phase lies
/// in the range of no other, and the lookup gives that phase. A value that
/// lies in no range gives no phase.
pub proof fn lemma_classify_exactly_one(phases: Seq<BatteryPhaseView>, value: u8)
    requires
        phases_valid(phases),
    ensures
        forall|i: int, j: int|
            0 <= i < phases.len() && 0 <= j < phases.len() && (#[trigger] phases[i]).contains(
                value,
            ) && (#[trigger] phases[j]).contains(value) ==> i == j,
        forall|i: int|
            0 <= i < phases.len() && (#[trigger] phases[i]).contains(value) ==> classified(
                phases,
                value,
            ) == Some(phases[i]),
        (forall|i: int| 0 <= i < phases.len() ==> !(#[trigger] phases[i]).contains(value))
            <==> classified(phases, value) is None,
{
    lemma_classified_from(phases, value, 0);
    assert forall|i: int, j: int|
        0 <= i < phases.len() && 0 <= j < phases.len() && (#[trigger] phases[i]).contains(value)
            && (#[trigger] phases[j]).contains(value) implies i == j by {
        if i < j {
            lemma_valid_phases_ascend(phases, i, j);
        } else if j < i {
            lemma_valid_phases_ascend(phases, j, i);
        }
    }
}

/// Whether the ranges of the phases at `i` and `j` share a value.
pub open spec fn ranges_overlap(phases: Seq<BatteryPhaseView>, i: int, j: int) -> bool {
    phases[i].from <= phases[j].to && phases[j].from <= phases[i].to
}

/// A list of phases that holds an inverted range, two phases whose ranges
/// overlap, or two phases of one name is rejected, and the error is the
/// fault of the first faulty phase, which it names.
pub proof fn lemma_faulty_phases_rejected(phases: Seq<BatteryPhaseView>)
    requires
        (exists|i: int| 0 <= i < phases.len() && (#[trigger] phases[i]).from > phases[i].to)
            || (exists|i: int, j: int|
            0 <= i < j < phases.len() && #[trigger] ranges_overlap(phases, i, j)) || (exists|
            i: int,
            j: int,
        |
            0 <= i < j < phases.len() && (#[trigger] phases[i]).name == (
            #[trigger] phases[j]).name),
    ensures
        first_fault(phases) is Some,
        exists|k: int|
            0 <= k < phases.len() && first_fault(phases) == phase_fault(phases, k) && (forall|
                j: int,
            |
                0 <= j < k ==> phase_fault(phases, j) is None) && fault_names(
                first_fault(phases)->0,
                phases[k].name,
            ),
{
    lemma_valid_iff_faultless(phases);
    if phases_valid(phases) {
        if exists|i: int, j: int|
            0 <= i < j < phases.len() && #[trigger] ranges_overlap(phases, i, j) {
            let (i, j) = choose|i: int, j: int|
                0 <= i < j < phases.len() && #[trigger] ranges_overlap(phases, i, j);
            lemma_valid_phases_ascend(phases, i, j);
        }
    }
    lemma_first_fault_from(phases, 0);
}

/// Whether the error `e` is about the phase called `name`.
pub open spec fn fault_names(e: ConfigErrorView, name: Seq<char>) -> bool {
    match e {
        ConfigErrorView::DuplicatePhase { name: n } => n == name,
        ConfigErrorView::InvalidRange { name: n, .. } => n == name,
        ConfigErrorView::OverlappingRange { name: n, .. } => n == name,
        _ => false,
    }
}


/// The configuration of the power monitor.
#[derive(Debug)]
pub struct PowerConfig {
    pub enabled: bool,
    pub refresh_interval_seconds: u64,
    pub phases: Vec<BatteryPhase>,
    pub alert_battery_activated: Option<Alert>,
    pub alert_battery_deactivated: Option<Alert>,
}

/// A `PowerConfig` with its texts as sequences of characters.
pub struct PowerConfigView {
    pub enabled: bool,
    pub refresh_interval_seconds: u64,
    pub phases: Seq<BatteryPhaseView>,
    pub alert_battery_activated: Option<AlertView>,
    pub alert_battery_deactivated: Option<AlertView>,
}

impl DeepView for PowerConfig {
    type V = PowerConfigView;

    open spec fn deep_view(&self) -> PowerConfigView {
        PowerConfigView {
            enabled: self.enabled,
            refresh_interval_seconds: self.refresh_interval_seconds,
            phases: self.phases.deep_view(),
            alert_battery_activated: self.alert_battery_activated.deep_view(),
            alert_battery_deactivated: self.alert_battery_deactivated.deep_view(),
        }
    }
}

impl PowerConfigView {
    /// The alert of a default phase: raised at startup too, with no message.
    pub open spec fn phase_alert(
        severity: AlertSeverity,
        repeat: u64,
        expire: Option<u64>,
        summary: Seq<char>,
    ) -> Option<AlertView> {
        Some(
            AlertView {
                severity,
                on_startup: true,
                repeat_after_seconds: Some(repeat),
                expire_after_seconds: expire,
                summary,
                message: None,
            },
        )
    }

    /// The phases of a configuration that names none.
    pub open spec fn default_phases() -> Seq<BatteryPhaseView> {
        seq![
            BatteryPhaseView {
                name: "almost_empty"@,
                from: 0,
                to: 5,
                alert: Self::phase_alert(
                    AlertSeverity::Critical,
                    180,
                    None,
                    "Battery is almost empty! (${capacity}%)"@,
                ),
            },
            BatteryPhaseView {
                name: "low"@,
                from: 6,
                to: 20,
                alert: Self::phase_alert(
                    AlertSeverity::Warning,
                    600,
                    Some(60),
                    "Battery is low! (${capacity}%)"@,
                ),
            },
            BatteryPhaseView {
                name: "draining"@,
                from: 21,
                to: 40,
                alert: Self::phase_alert(
                    AlertSeverity::Info,
                    1200,
                    Some(10),
                    "Battery is getting low. (${capacity}%)"@,
                ),
            },
            BatteryPhaseView { name: "full"@, from: 41, to: 99, alert: None },
        ]
    }

    /// The alert for the switch to battery power, unless configured.
    pub open spec fn default_alert_battery_activated() -> Option<AlertView> {
        Some(
            AlertView {
                severity: AlertSeverity::Info,
                on_startup: true,
                repeat_after_seconds: None,
                expire_after_seconds: None,
                summary: "Unplugged - switched to battery (${capacity}%)"@,
                message: None,
            },
        )
    }

    /// The alert for the return of external power, unless configured.
    pub open spec fn default_alert_battery_deactivated() -> Option<AlertView> {
        Some(
            AlertView {
                severity: AlertSeverity::Info,
                on_startup: true,
                repeat_after_seconds: None,
                expire_after_seconds: Some(10),
                summary: "Plugged in! Battery is charging (${capacity}%)"@,
                message: None,
            },
        )
    }

    /// The configuration that is used where none is given.
    pub open spec fn default_config() -> PowerConfigView {
        PowerConfigView {
            enabled: true,
            refresh_interval_seconds: 5,
            phases: Self::default_phases(),
            alert_battery_activated: Self::default_alert_battery_activated(),
            alert_battery_deactivated: Self::default_alert_battery_deactivated(),
        }
    }

    /// The phases in force: the default phases where the list is empty.
    pub open spec fn effective_phases(self) -> Seq<BatteryPhaseView> {
        if self.phases.len() == 0 {
            Self::default_phases()
        } else {
            self.phases
        }
    }

    /// A configuration is valid when its refresh interval is not zero and
    /// its phases are valid.
    pub open spec fn valid(self) -> bool {
        self.refresh_interval_seconds != 0 && phases_valid(self.phases)
    }

    /// The outcome of validation: the configuration with its phases in
    /// force, or the first thing that is wrong with it.
    pub open spec fn validated(self) -> Result<PowerConfigView, ConfigErrorView> {
        if self.refresh_interval_seconds == 0 {
            Err(ConfigErrorView::ZeroRefreshInterval)
        } else {
            match first_fault(self.effective_phases()) {
                Some(e) => Err(e),
                None => Ok(PowerConfigView { phases: self.effective_phases(), ..self }),
            }
        }
    }
}

/// The default phases are valid.
pub proof fn lemma_default_phases_valid()
    ensures
        phases_valid(PowerConfigView::default_phases()),
        first_fault(PowerConfigView::default_phases()) is None,
{
    reveal_strlit("almost_empty");
    reveal_strlit("low");
    reveal_strlit("draining");
    reveal_strlit("full");
    let phases = PowerConfigView::default_phases();
    assert(phases[0].name.len() == 12);
    assert(phases[1].name.len() == 3);
    assert(phases[2].name.len() == 8);
    assert(phases[3].name.len() == 4);
    lemma_valid_iff_faultless(phases);
}

/// A configuration that passes validation is valid, and so is the default
/// configuration.
pub proof fn lemma_validated_is_valid(config: PowerConfigView)
    ensures
        config.validated() matches Ok(c) ==> c.valid(),
        PowerConfigView::default_config().validated() == Ok::<PowerConfigView, ConfigErrorView>(
            PowerConfigView::default_config(),
        ),
{
    lemma_valid_iff_faultless(config.effective_phases());
    lemma_default_phases_valid();
}

fn default_phase_alert(severity: AlertSeverity, repeat: u64, expire: Option<u64>, summary: &str) -> (r:
    Option<Alert>)
    ensures
        r.deep_view() == PowerConfigView::phase_alert(severity, repeat, expire, summary@),
{
    Some(
        Alert {
            severity,
            on_startup: true,
            repeat_after_seconds: Some(repeat),
            expire_after_seconds: expire,
            summary: summary.to_owned(),
            message: None,
        },
    )
}

/// A copy of a list of phases.
pub fn clone_phases(phases: &Vec<BatteryPhase>) -> (r: Vec<BatteryPhase>)
    ensures
        r.deep_view() == phases.deep_view(),
{
    let mut r: Vec<BatteryPhase> = Vec::new();
    let mut i: usize = 0;
    while i < phases.len()
        invariant
            i <= phases.len(),
            r.len() == i,
            forall|k: int| 0 <= k < i ==> r[k].deep_view() == phases[k].deep_view(),
        decreases phases.len() - i,
    {
        r.push(phases[i].clone());
        i += 1;
    }
    assert(r.deep_view() =~= phases.deep_view());
    r
}

impl Clone for PowerConfig {
    fn clone(&self) -> (r: Self)
        ensures
            r.deep_view() == self.deep_view(),
    {
        PowerConfig {
            enabled: self.enabled,
            refresh_interval_seconds: self.refresh_interval_seconds,
            phases: clone_phases(&self.phases),
            alert_battery_activated: clone_alert(&self.alert_battery_activated),
            alert_battery_deactivated: clone_alert(&self.alert_battery_deactivated),
        }
    }
}

impl Default for PowerConfig {
    fn default() -> (r: Self)
        ensures
            r.deep_view() == PowerConfigView::default_config(),
    {
        PowerConfig {
            enabled: true,
            refresh_interval_seconds: Self::default_refresh_interval_seconds(),
            phases: Self::default_phases(),
            alert_battery_activated: Self::default_alert_battery_activated(),
            alert_battery_deactivated: Self::default_alert_battery_deactivated(),
        }
    }
}

impl PowerConfig {
    /// Checks the configuration and puts the default phases in place of an
    /// empty list. The refresh interval is looked at first, then the phases
    /// in the order given.
    pub fn validate(self) -> (r: Result<Self, ConfigError>)
        ensures
            match r {
                Ok(c) => self.deep_view().validated() == Ok::<PowerConfigView, ConfigErrorView>(
                    c.deep_view(),
                ) && c.deep_view().valid(),
                Err(e) => self.deep_view().validated() == Err::<PowerConfigView, ConfigErrorView>(
                    e.deep_view(),
                ),
            },
    {
        let mut config = self;
        if config.refresh_interval_seconds == 0 {
            return Err(ConfigError::ZeroRefreshInterval);
        }
        if config.phases.len() == 0 {
            config.phases = Self::default_phases();
        }
        proof {
            lemma_validated_is_valid(self.deep_view());
        }
        match validate_phases(&config.phases) {
            Ok(()) => Ok(config),
            Err(e) => Err(e),
        }
    }

    /// The first phase whose range holds `capacity`, if there is one.
    pub fn classify(&self, capacity: u8) -> (r: Option<&BatteryPhase>)
        ensures
            r.deep_view() == classified(self.deep_view().phases, capacity),
    {
        classify(&self.phases, capacity)
    }

    pub fn default_refresh_interval_seconds() -> (r: u64)
        ensures
            r == 5,
    {
        5
    }

    pub fn default_phases() -> (r: Vec<BatteryPhase>)
        ensures
            r.deep_view() == PowerConfigView::default_phases(),
    {
        let mut r: Vec<BatteryPhase> = Vec::new();
        r.push(
            BatteryPhase {
                name: "almost_empty".to_owned(),
                from: 0,
                to: 5,
                alert: default_phase_alert(
                    AlertSeverity::Critical,
                    60 * 3,
                    None,
                    "Battery is almost empty! (${capacity}%)",
                ),
            },
        );
        r.push(
            BatteryPhase {
                name: "low".to_owned(),
                from: 6,
                to: 20,
                alert: default_phase_alert(
                    AlertSeverity::Warning,
                    60 * 10,
                    Some(60),
                    "Battery is low! (${capacity}%)",
                ),
            },
        );
        r.push(
            BatteryPhase {
                name: "draining".to_owned(),
                from: 21,
                to: 40,
                alert: default_phase_alert(
                    AlertSeverity::Info,
                    60 * 20,
                    Some(10),
                    "Battery is getting low. (${capacity}%)",
                ),
            },
        );
        r.push(BatteryPhase { name: "full".to_owned(), from: 41, to: 99, alert: None });
        assert(r.deep_view() =~= PowerConfigView::default_phases());
        r
    }

    pub fn default_alert_battery_activated() -> (r: Option<Alert>)
        ensures
            r.deep_view() == PowerConfigView::default_alert_battery_activated(),
    {
        Some(
            Alert {
                severity: AlertSeverity::Info,
                on_startup: true,
                repeat_after_seconds: None,
                expire_after_seconds: None,
                summary: "Unplugged - switched to battery (${capacity}%)".to_owned(),
                message: None,
            },
        )
    }

    pub fn default_alert_battery_deactivated() -> (r: Option<Alert>)
        ensures
            r.deep_view() == PowerConfigView::default_alert_battery_deactivated(),
    {
        Some(
            Alert {
                severity: AlertSeverity::Info,
                on_startup: true,
                repeat_after_seconds: None,
                expire_after_seconds: Some(10),
                summary: "Plugged in! Battery is charging (${capacity}%)".to_owned(),
                message: None,
            },
        )
    }
}

} // verus!
