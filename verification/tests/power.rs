use panoramas::cfg::{Alert, AlertSeverity, ConfigError};
use panoramas::notify::PreparedAlert;
use panoramas::power::cfg::{BatteryPhase, PowerConfig};
use panoramas::power::system::{
    find_battery, find_main, BatteryStatus, PowerSupply, PowerSupplyBattery, PowerSupplyMain,
    PowerSupplyType, SupplyError, SupplyKind,
};
use panoramas::power::{PhaseTransition, PowerManager, PowerMode};

fn alert(summary: &str, repeat: Option<u64>) -> Alert {
    Alert {
        severity: AlertSeverity::Warning,
        on_startup: true,
        repeat_after_seconds: repeat,
        expire_after_seconds: None,
        summary: summary.to_string(),
        message: None,
    }
}

fn phase(name: &str, from: u8, to: u8, alert: Option<Alert>) -> BatteryPhase {
    BatteryPhase { name: name.to_string(), from, to, alert }
}

fn manager(phases: Vec<BatteryPhase>, mode_alerts: bool) -> PowerManager {
    let config = PowerConfig {
        enabled: true,
        refresh_interval_seconds: 5,
        phases,
        alert_battery_activated: if mode_alerts { Some(alert("activated ${capacity}", None)) } else { None },
        alert_battery_deactivated: if mode_alerts { Some(alert("deactivated ${capacity}", None)) } else { None },
    };
    PowerManager::new(config).unwrap()
}

fn supplies(ac_online: bool, capacity: u8) -> Vec<PowerSupply> {
    vec![
        PowerSupply {
            name: "AC".to_string(),
            kind: PowerSupplyType::Main(PowerSupplyMain { online: ac_online }),
        },
        PowerSupply {
            name: "BAT0".to_string(),
            kind: PowerSupplyType::Battery(PowerSupplyBattery {
                status: BatteryStatus::Discharging,
                capacity,
            }),
        },
    ]
}

fn summaries(alerts: &Vec<PreparedAlert>) -> Vec<String> {
    alerts.iter().map(|a| a.render().0).collect()
}

fn low_full() -> Vec<BatteryPhase> {
    vec![phase("low", 0, 20, Some(alert("low ${capacity}%", Some(600)))), phase("full", 21, 100, None)]
}

#[test]
fn repeat_fires_at_entry_and_after_the_interval_only() {
    let mut m = manager(low_full(), false);
    assert_eq!(summaries(&m.tick(&supplies(false, 15), 0)), vec!["low 15%"]);
    assert_eq!(summaries(&m.tick(&supplies(false, 15), 300)), Vec::<String>::new());
    assert_eq!(summaries(&m.tick(&supplies(false, 15), 700)), vec!["low 15%"]);
}

#[test]
fn no_op_tick_changes_nothing() {
    let mut m = manager(low_full(), false);
    m.tick(&supplies(false, 15), 100);
    let entered = m.battery_phase().clone().unwrap();
    assert_eq!(entered.name, "low");
    assert_eq!(entered.entered_at, 100);
    assert_eq!(entered.last_notified_at, None);
    assert!(m.tick(&supplies(false, 16), 699).is_empty());
    let still = m.battery_phase().clone().unwrap();
    assert_eq!(still.name, "low");
    assert_eq!(still.entered_at, 100);
    assert_eq!(still.last_notified_at, None);
}

#[test]
fn repeat_counts_from_the_last_repeat() {
    let mut m = manager(low_full(), false);
    assert_eq!(m.tick(&supplies(false, 15), 0).len(), 1);
    assert_eq!(m.tick(&supplies(false, 15), 599).len(), 0);
    assert_eq!(m.tick(&supplies(false, 14), 600).len(), 1);
    let state = m.battery_phase().clone().unwrap();
    assert_eq!(state.entered_at, 0);
    assert_eq!(state.last_notified_at, Some(600));
    assert_eq!(m.tick(&supplies(false, 13), 1199).len(), 0);
    assert_eq!(summaries(&m.tick(&supplies(false, 12), 1200)), vec!["low 12%"]);
    assert_eq!(m.battery_phase().clone().unwrap().last_notified_at, Some(1200));
}

#[test]
fn a_phase_without_repeat_interval_is_raised_once() {
    let mut m = manager(vec![phase("low", 0, 20, Some(alert("low", None)))], false);
    assert_eq!(m.tick(&supplies(false, 15), 0).len(), 1);
    assert_eq!(m.tick(&supplies(false, 15), 1_000_000).len(), 0);
    assert_eq!(m.tick(&supplies(false, 15), u64::MAX).len(), 0);
}

#[test]
fn a_clock_that_runs_backwards_raises_nothing() {
    let mut m = manager(low_full(), false);
    assert_eq!(m.tick(&supplies(false, 15), 1000).len(), 1);
    assert_eq!(m.tick(&supplies(false, 15), 10).len(), 0);
    assert_eq!(m.battery_phase().clone().unwrap().entered_at, 1000);
}

#[test]
fn a_zero_interval_repeats_at_every_tick() {
    let mut m = manager(vec![phase("low", 0, 20, Some(alert("low", Some(0))))], false);
    assert_eq!(m.tick(&supplies(false, 15), 5).len(), 1);
    assert_eq!(m.tick(&supplies(false, 15), 5).len(), 1);
    assert_eq!(m.tick(&supplies(false, 15), 6).len(), 1);
}

#[test]
fn change_of_phase_and_back_raises_two_alerts_at_once() {
    let phases = vec![
        phase("a", 0, 20, Some(alert("in a", Some(600)))),
        phase("b", 21, 100, Some(alert("in b", Some(600)))),
    ];
    let mut m = manager(phases, false);
    assert_eq!(summaries(&m.tick(&supplies(false, 15), 0)), vec!["in a"]);
    assert_eq!(summaries(&m.tick(&supplies(false, 50), 1)), vec!["in b"]);
    assert_eq!(summaries(&m.tick(&supplies(false, 15), 2)), vec!["in a"]);
    let state = m.battery_phase().clone().unwrap();
    assert_eq!(state.name, "a");
    assert_eq!(state.entered_at, 2);
    assert_eq!(state.last_notified_at, None);
}

#[test]
fn change_of_phase_resets_the_repeat_interval() {
    let phases = vec![
        phase("a", 0, 20, Some(alert("in a", Some(600)))),
        phase("b", 21, 100, None),
    ];
    let mut m = manager(phases, false);
    assert_eq!(m.tick(&supplies(false, 15), 0).len(), 1);
    assert_eq!(m.tick(&supplies(false, 15), 650).len(), 1);
    assert_eq!(m.tick(&supplies(false, 50), 700).len(), 0);
    assert_eq!(m.battery_phase().clone().unwrap().name, "b");
    assert_eq!(m.tick(&supplies(false, 15), 710).len(), 1);
    assert_eq!(m.tick(&supplies(false, 15), 1309).len(), 0);
    assert_eq!(m.tick(&supplies(false, 15), 1310).len(), 1);
}

#[test]
fn plugging_and_unplugging_raise_one_alert_for_each_edge() {
    let mut m = manager(Vec::new(), true);
    assert_eq!(m.mode(), PowerMode::PluggedIn);
    let none = m.tick(&supplies(true, 80), 0);
    assert!(none.is_empty());
    assert_eq!(m.mode(), PowerMode::PluggedIn);

    let unplugged = m.tick(&supplies(false, 80), 1);
    assert_eq!(summaries(&unplugged)[0], "activated 80");
    assert_eq!(m.mode(), PowerMode::Battery);
    let activated: Vec<&PreparedAlert> =
        unplugged.iter().filter(|a| a.alert.summary.starts_with("activated")).collect();
    assert_eq!(activated.len(), 1);

    let plugged = m.tick(&supplies(true, 81), 2);
    assert_eq!(summaries(&plugged), vec!["deactivated 81"]);
    assert_eq!(m.mode(), PowerMode::PluggedIn);

    assert!(m.tick(&supplies(true, 82), 3).is_empty());
    assert!(m.tick(&supplies(true, 83), 4).is_empty());
}

#[test]
fn staying_on_battery_raises_no_mode_alert() {
    let mut m = manager(vec![phase("all", 0, 100, None)], true);
    assert_eq!(m.tick(&supplies(false, 50), 0).len(), 1);
    assert!(m.tick(&supplies(false, 50), 1).is_empty());
    assert!(m.tick(&supplies(false, 49), 2).is_empty());
}

#[test]
fn mode_alert_comes_before_phase_alert() {
    let mut m = manager(low_full(), true);
    let alerts = m.tick(&supplies(false, 15), 0);
    assert_eq!(summaries(&alerts), vec!["activated 15", "low 15%"]);
    for a in &alerts {
        assert_eq!(a.group, "panorama.battery_status");
        assert_eq!(a.variables.len(), 1);
        assert_eq!(a.variables.get("capacity"), Some(&"15".to_string()));
    }
}

#[test]
fn leaving_all_phases_clears_the_phase_silently() {
    let mut m = manager(vec![phase("low", 0, 20, Some(alert("low", Some(600))))], false);
    assert_eq!(m.tick(&supplies(false, 15), 0).len(), 1);
    assert!(m.tick(&supplies(false, 21), 1).is_empty());
    assert!(m.battery_phase().is_none());
    assert_eq!(m.tick(&supplies(false, 20), 2).len(), 1);
    assert_eq!(m.battery_phase().clone().unwrap().entered_at, 2);
}

#[test]
fn plugging_in_clears_the_phase() {
    let mut m = manager(low_full(), false);
    assert_eq!(m.tick(&supplies(false, 15), 0).len(), 1);
    assert!(m.tick(&supplies(true, 15), 1).is_empty());
    assert!(m.battery_phase().is_none());
    assert_eq!(m.tick(&supplies(false, 15), 2).len(), 1);
}

#[test]
fn without_a_battery_there_is_no_phase_and_no_variable() {
    let mut m = manager(low_full(), true);
    let only_ac = vec![PowerSupply {
        name: "AC".to_string(),
        kind: PowerSupplyType::Main(PowerSupplyMain { online: false }),
    }];
    let alerts = m.tick(&only_ac, 0);
    assert_eq!(alerts.len(), 1);
    assert_eq!(alerts[0].alert.summary, "activated ${capacity}");
    assert_eq!(alerts[0].variables.len(), 0);
    assert_eq!(alerts[0].render().0, "activated ${capacity}");
    assert!(m.battery_phase().is_none());
}

#[test]
fn without_a_mains_supply_the_machine_is_on_battery() {
    let mut m = manager(low_full(), true);
    let only_battery = vec![PowerSupply {
        name: "BAT0".to_string(),
        kind: PowerSupplyType::Battery(PowerSupplyBattery {
            status: BatteryStatus::Discharging,
            capacity: 7,
        }),
    }];
    assert_eq!(summaries(&m.tick(&only_battery, 0)), vec!["activated 7", "low 7%"]);
    assert_eq!(m.mode(), PowerMode::Battery);
    assert_eq!(summaries(&m.tick(&Vec::new(), 1)), Vec::<String>::new());
    assert_eq!(m.mode(), PowerMode::Battery);
}

#[test]
fn the_first_supply_of_each_kind_counts() {
    let many = vec![
        PowerSupply {
            name: "BAT0".to_string(),
            kind: PowerSupplyType::Battery(PowerSupplyBattery { status: BatteryStatus::Full, capacity: 90 }),
        },
        PowerSupply { name: "AC0".to_string(), kind: PowerSupplyType::Main(PowerSupplyMain { online: false }) },
        PowerSupply { name: "AC1".to_string(), kind: PowerSupplyType::Main(PowerSupplyMain { online: true }) },
        PowerSupply {
            name: "BAT1".to_string(),
            kind: PowerSupplyType::Battery(PowerSupplyBattery { status: BatteryStatus::Charging, capacity: 10 }),
        },
    ];
    assert_eq!(find_main(&many), Some(PowerSupplyMain { online: false }));
    assert_eq!(find_battery(&many), Some(PowerSupplyBattery { status: BatteryStatus::Full, capacity: 90 }));
    assert_eq!(find_main(&Vec::new()), None);
    assert_eq!(find_battery(&Vec::new()), None);
    let mut m = manager(low_full(), false);
    m.tick(&many, 0);
    assert_eq!(m.battery_phase().clone().unwrap().name, "full");
    let copy = many[3].clone();
    assert_eq!(copy.name, "BAT1");
    assert_eq!(copy.kind, many[3].kind);
}

#[test]
fn new_validates_the_configuration() {
    let bad = PowerConfig {
        enabled: true,
        refresh_interval_seconds: 5,
        phases: vec![phase("a", 5, 1, None)],
        alert_battery_activated: None,
        alert_battery_deactivated: None,
    };
    assert!(matches!(PowerManager::new(bad), Err(ConfigError::InvalidRange { .. })));
    let m = PowerManager::new(PowerConfig::default()).unwrap();
    assert_eq!(m.config().phases.len(), 4);
    assert_eq!(m.mode(), PowerMode::PluggedIn);
    assert!(m.battery_phase().is_none());
}

#[test]
fn default_phases_drive_the_default_alerts() {
    let mut m = PowerManager::new(PowerConfig::default()).unwrap();
    let alerts = m.tick(&supplies(false, 4), 10);
    assert_eq!(
        summaries(&alerts),
        vec!["Unplugged - switched to battery (4%)", "Battery is almost empty! (4%)"]
    );
    assert!(m.tick(&supplies(false, 4), 189).is_empty());
    assert_eq!(summaries(&m.tick(&supplies(false, 3), 190)), vec!["Battery is almost empty! (3%)"]);
    assert_eq!(summaries(&m.tick(&supplies(false, 100), 191)), Vec::<String>::new());
    assert_eq!(
        summaries(&m.tick(&supplies(true, 100), 192)),
        vec!["Plugged in! Battery is charging (100%)"]
    );
}

#[test]
fn phase_transition_enter_and_reference() {
    let mut p = PhaseTransition::enter(&"low".to_string(), 42);
    assert_eq!(p.name, "low");
    assert_eq!(p.entered_at, 42);
    assert_eq!(p.last_notified_at, None);
    assert_eq!(p.reference(), 42);
    p.last_notified_at = Some(50);
    assert_eq!(p.reference(), 50);
}

#[test]
fn as_main_and_as_battery() {
    let main = PowerSupplyType::Main(PowerSupplyMain { online: true });
    let battery = PowerSupplyType::Battery(PowerSupplyBattery { status: BatteryStatus::Unknown, capacity: 1 });
    assert_eq!(main.as_main(), Some(&PowerSupplyMain { online: true }));
    assert_eq!(battery.as_main(), None);
    assert_eq!(battery.as_battery().unwrap().capacity, 1);
    assert_eq!(main.as_battery(), None);
}

#[test]
fn supply_kind_is_read_from_the_type_attribute() {
    assert_eq!(SupplyKind::parse("Battery\n").unwrap(), SupplyKind::Battery);
    assert_eq!(SupplyKind::parse("  Mains").unwrap(), SupplyKind::Main);
    let e = SupplyKind::parse("USB\n").unwrap_err();
    match &e {
        SupplyError::UnknownType { text } => assert_eq!(text, "USB"),
        other => panic!("wrong error: {:?}", other),
    }
    assert_eq!(e.message(), "unknown power supply type: 'USB'");
    assert!(SupplyKind::parse("battery").is_err());
    assert!(SupplyKind::parse("").is_err());
}

#[test]
fn battery_status_is_read_from_the_status_attribute() {
    assert_eq!(BatteryStatus::parse("Unknown\n").unwrap(), BatteryStatus::Unknown);
    assert_eq!(BatteryStatus::parse("Charging\n").unwrap(), BatteryStatus::Charging);
    assert_eq!(BatteryStatus::parse("Discharging\n").unwrap(), BatteryStatus::Discharging);
    assert_eq!(BatteryStatus::parse("Not charging\n").unwrap(), BatteryStatus::NotCharging);
    assert_eq!(BatteryStatus::parse("Full\n").unwrap(), BatteryStatus::Full);
    let e = BatteryStatus::parse(" Draining \n").unwrap_err();
    assert_eq!(e.message(), "unknown battery status: Draining");
    assert!(BatteryStatus::parse("Not  charging").is_err());
}

#[test]
fn battery_is_read_from_status_and_capacity() {
    assert_eq!(
        PowerSupplyBattery::parse("Discharging\n", "87\n").unwrap(),
        PowerSupplyBattery { status: BatteryStatus::Discharging, capacity: 87 }
    );
    assert_eq!(PowerSupplyBattery::parse("Full", "255").unwrap().capacity, 255);
    let e = PowerSupplyBattery::parse("Full", "256").unwrap_err();
    assert!(matches!(e, SupplyError::BadCapacity));
    assert_eq!(e.message(), "could not parse battery capacity");
    assert!(matches!(PowerSupplyBattery::parse("Full", ""), Err(SupplyError::BadCapacity)));
    assert!(matches!(PowerSupplyBattery::parse("Full", "8 7"), Err(SupplyError::BadCapacity)));
    assert!(matches!(PowerSupplyBattery::parse("Bad", "x"), Err(SupplyError::UnknownStatus { .. })));
}

#[test]
fn mains_is_online_when_the_flag_is_one() {
    assert_eq!(PowerSupplyMain::parse("1\n").unwrap(), PowerSupplyMain { online: true });
    assert_eq!(PowerSupplyMain::parse("0\n").unwrap(), PowerSupplyMain { online: false });
    assert_eq!(PowerSupplyMain::parse("2").unwrap(), PowerSupplyMain { online: false });
    assert_eq!(PowerSupplyMain::parse("+1").unwrap(), PowerSupplyMain { online: true });
    let e = PowerSupplyMain::parse("yes").unwrap_err();
    assert!(matches!(e, SupplyError::BadOnline));
    assert_eq!(e.message(), "could not parse main power supply status");
}
