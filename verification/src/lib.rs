//! A daemon that watches the power supply, the network and the file
//! systems of a machine and raises desktop notifications. This library
//! holds what the daemon decides; reading the machine, probing the network
//! and showing notifications is left to its caller.

pub mod cfg;
pub mod cli;
pub mod fs;
pub mod internet;
pub mod notify;
pub mod power;
pub mod text;

use crate::cfg::{Config, ConfigView};
use vstd::prelude::*;

verus! {

/// One of the long-running units of the daemon.
#[derive(Clone, Copy, Debug, PartialEq, Eq, Structural)]
pub enum Unit {
    /// The power monitor.
    Power,
    /// The reachability monitor.
    Online,
    /// The file system monitor.
    Fs,
    /// The listener for device changes of the kernel.
    Udev,
    /// The loop that shows the alerts.
    Notifier,
}

/// How a unit ended.
#[derive(Debug)]
pub enum UnitEnd {
    /// The unit returned without an error.
    Returned,
    /// The unit returned the error whose text is `cause`.
    Failed { cause: String },
    /// The unit was torn down before it returned.
    Aborted,
}

/// A `UnitEnd` with its text as a sequence of characters.
pub enum UnitEndView {
    Returned,
    Failed { cause: Seq<char> },
    Aborted,
}

impl DeepView for UnitEnd {
    type V = UnitEndView;

    open spec fn deep_view(&self) -> UnitEndView {
        match self {
            UnitEnd::Returned => UnitEndView::Returned,
            UnitEnd::Failed { cause } => UnitEndView::Failed { cause: cause@ },
            UnitEnd::Aborted => UnitEndView::Aborted,
        }
    }
}

/// Why the daemon ended with an error.
#[derive(Debug)]
pub enum SupervisorError {
    /// No unit was there to wait for.
    NothingRan,
    /// A unit returned the error whose text is `cause`.
    UnitFailed { unit: Unit, cause: String },
    /// A unit was torn down before it returned.
    UnitAborted { unit: Unit },
}

/// A `SupervisorError` with its text as a sequence of characters.
pub enum SupervisorErrorView {
    NothingRan,
    UnitFailed { unit: Unit, cause: Seq<char> },
    UnitAborted { unit: Unit },
}

impl DeepView for SupervisorError {
    type V = SupervisorErrorView;

    open spec fn deep_view(&self) -> SupervisorErrorView {
        match self {
            SupervisorError::NothingRan => SupervisorErrorView::NothingRan,
            SupervisorError::UnitFailed { unit, cause } => SupervisorErrorView::UnitFailed {
                unit: *unit,
                cause: cause@,
            },
            SupervisorError::UnitAborted { unit } => SupervisorErrorView::UnitAborted {
                unit: *unit,
            },
        }
    }
}

/// The unit, if `enabled`.
pub open spec fn unit_if(enabled: bool, unit: Unit) -> Seq<Unit> {
    if enabled {
        seq![unit]
    } else {
        Seq::empty()
    }
}

/// The units that the daemon starts: one for each monitor that is enabled,
/// then the listener for device changes and the loop that shows the alerts.
pub open spec fn units_of(config: ConfigView) -> Seq<Unit> {
    unit_if(config.power.enabled, Unit::Power) + unit_if(config.online.enabled, Unit::Online)
        + unit_if(config.fs.enabled, Unit::Fs) + seq![Unit::Udev, Unit::Notifier]
}

/// The result of the daemon, given the unit that ended first and how it
/// ended, if any unit ran at all: the first end decides, be it good or bad,
/// and the other units are left behind.
pub open spec fn concluded(first: Option<(Unit, UnitEndView)>) -> Result<(), SupervisorErrorView> {
    match first {
        None => Err(SupervisorErrorView::NothingRan),
        Some((unit, end)) => match end {
            UnitEndView::Returned => Ok(()),
            UnitEndView::Failed { cause } => Err(SupervisorErrorView::UnitFailed { unit, cause }),
            UnitEndView::Aborted => Err(SupervisorErrorView::UnitAborted { unit }),
        },
    }
}

/// The daemon with its configuration.
pub struct App {
    config: Config,
}

impl App {
    /// The configuration of the daemon.
    pub closed spec fn config_view(&self) -> ConfigView {
        self.config.deep_view()
    }

    pub fn new(config: Config) -> (r: Self)
        ensures
            r.config_view() == config.deep_view(),
    {
        App { config }
    }

    /// The configuration of the daemon.
    pub fn config(&self) -> (r: &Config)
        ensures
            r.deep_view() == self.config_view(),
    {
        &self.config
    }

    /// The units to start, in the order in which they are started.
    pub fn units(&self) -> (r: Vec<Unit>)
        ensures
            r@ == units_of(self.config_view()),
    {
        let mut units: Vec<Unit> = Vec::new();
        if self.config.power.enabled {
            units.push(Unit::Power);
        }
        if self.config.online.enabled {
            units.push(Unit::Online);
        }
        if self.config.fs.enabled {
            units.push(Unit::Fs);
        }
        units.push(Unit::Udev);
        units.push(Unit::Notifier);
        assert(units@ =~= units_of(self.config_view()));
        units
    }

    /// The result of the daemon, given the unit that ended first and how.
    pub fn conclude(first: Option<(Unit, UnitEnd)>) -> (r: Result<(), SupervisorError>)
        ensures
            match r {
                Ok(()) => concluded(first.deep_view()) == Ok::<(), SupervisorErrorView>(()),
                Err(e) => concluded(first.deep_view()) == Err::<(), SupervisorErrorView>(
                    e.deep_view(),
                ),
            },
    {
        match first {
            None => Err(SupervisorError::NothingRan),
            Some((unit, end)) => match end {
                UnitEnd::Returned => Ok(()),
                UnitEnd::Failed { cause } => Err(SupervisorError::UnitFailed { unit, cause }),
                UnitEnd::Aborted => Err(SupervisorError::UnitAborted { unit }),
            },
        }
    }
}

impl DeepView for Unit {
    type V = Unit;

    open spec fn deep_view(&self) -> Unit {
        *self
    }
}

} // verus!
