//! The power supplies of the machine, as the kernel describes them under
//! `/sys/class/power_supply`, and the reading of their attribute texts.

use crate::text::{parse_u8, parsed_unsigned, same_text, trim, trimmed};
use vstd::prelude::*;

verus! {

/// One power supply of the machine.
#[derive(Debug)]
pub struct PowerSupply {
    pub name: String,
    pub kind: PowerSupplyType,
}

impl Clone for PowerSupply {
    fn clone(&self) -> (r: Self)
        ensures
            r.name@ == self.name@,
            r.kind == self.kind,
    {
        PowerSupply { name: self.name.clone(), kind: self.kind }
    }
}

#[derive(Clone, Copy, Debug, PartialEq, Eq, Structural)]
pub enum PowerSupplyType {
    Battery(PowerSupplyBattery),
    Main(PowerSupplyMain),
}

#[derive(Clone, Copy, Debug, PartialEq, Eq, Structural)]
pub struct PowerSupplyBattery {
    pub status: BatteryStatus,
    /// How full the battery is, in percent.
    pub capacity: u8,
}

#[derive(Clone, Copy, Debug, PartialEq, Eq, Structural)]
pub enum BatteryStatus {
    Unknown,
    Charging,
    Discharging,
    NotCharging,
    Full,
}

#[derive(Clone, Copy, Debug, PartialEq, Eq, Structural)]
pub struct PowerSupplyMain {
    pub online: bool,
}

/// Which attributes a power supply has.
#[derive(Clone, Copy, Debug, PartialEq, Eq, Structural)]
pub enum SupplyKind {
    Battery,
    Main,
}

/// Why the attributes of a power supply could not be read.
#[derive(Debug)]
pub enum SupplyError {
    /// The type is neither `Battery` nor `Mains`.
    UnknownType { text: String },
    /// The status of a battery is none of those that the kernel documents.
    UnknownStatus { text: String },
    /// The capacity of a battery is no number from 0 to 255.
    BadCapacity,
    /// The online flag of a mains supply is no number from 0 to 255.
    BadOnline,
}

/// A `SupplyError` with its texts as sequences of characters.
pub enum SupplyErrorView {
    UnknownType { text: Seq<char> },
    UnknownStatus { text: Seq<char> },
    BadCapacity,
    BadOnline,
}

impl DeepView for SupplyError {
    type V = SupplyErrorView;

    open spec fn deep_view(&self) -> SupplyErrorView {
        match self {
            SupplyError::UnknownType { text } => SupplyErrorView::UnknownType { text: text@ },
            SupplyError::UnknownStatus { text } => SupplyErrorView::UnknownStatus { text: text@ },
            SupplyError::BadCapacity => SupplyErrorView::BadCapacity,
            SupplyError::BadOnline => SupplyErrorView::BadOnline,
        }
    }
}

impl SupplyErrorView {
    /// The sentence that tells a user what is wrong.
    pub open spec fn text(self) -> Seq<char> {
        match self {
            SupplyErrorView::UnknownType { text } => "unknown power supply type: '"@ + text + "'"@,
            SupplyErrorView::UnknownStatus { text } => "unknown battery status: "@ + text,
            SupplyErrorView::BadCapacity => "could not parse battery capacity"@,
            SupplyErrorView::BadOnline => "could not parse main power supply status"@,
        }
    }
}

impl SupplyError {
    /// The sentence that tells a user what is wrong.
    pub fn message(&self) -> (r: String)
        ensures
            r@ == self.deep_view().text(),
    {
        match self {
            SupplyError::UnknownType { text } => {
                let mut r = "unknown power supply type: '".to_owned();
                r.append(text.as_str());
                r.append("'");
                r
            },
            SupplyError::UnknownStatus { text } => {
                let mut r = "unknown battery status: ".to_owned();
                r.append(text.as_str());
                r
            },
            SupplyError::BadCapacity => "could not parse battery capacity".to_owned(),
            SupplyError::BadOnline => "could not parse main power supply status".to_owned(),
        }
    }
}

impl PowerSupplyType {
    /// The mains supply, if this is one.
    pub fn as_main(&self) -> (r: Option<&PowerSupplyMain>)
        ensures
            r == (match *self {
                PowerSupplyType::Main(v) => Some(&v),
                PowerSupplyType::Battery(_) => None,
            }),
    {
        if let Self::Main(v) = self {
            Some(v)
        } else {
            None
        }
    }

    /// The battery, if this is one.
    pub fn as_battery(&self) -> (r: Option<&PowerSupplyBattery>)
        ensures
            r == (match *self {
                PowerSupplyType::Battery(v) => Some(&v),
                PowerSupplyType::Main(_) => None,
            }),
    {
        if let Self::Battery(v) = self {
            Some(v)
        } else {
            None
        }
    }
}

/// The kind that the text of the attribute `type` names, white space around
/// it aside.
pub open spec fn kind_of(raw: Seq<char>) -> Result<SupplyKind, SupplyErrorView> {
    let t = trimmed(raw);
    if t == "Battery"@ {
        Ok(SupplyKind::Battery)
    } else if t == "Mains"@ {
        Ok(SupplyKind::Main)
    } else {
        Err(SupplyErrorView::UnknownType { text: t })
    }
}

/// The status that the text of the attribute `status` names, white space
/// around it aside.
pub open spec fn status_of(raw: Seq<char>) -> Result<BatteryStatus, SupplyErrorView> {
    let t = trimmed(raw);
    if t == "Unknown"@ {
        Ok(BatteryStatus::Unknown)
    } else if t == "Charging"@ {
        Ok(BatteryStatus::Charging)
    } else if t == "Discharging"@ {
        Ok(BatteryStatus::Discharging)
    } else if t == "Not charging"@ {
        Ok(BatteryStatus::NotCharging)
    } else if t == "Full"@ {
        Ok(BatteryStatus::Full)
    } else {
        Err(SupplyErrorView::UnknownStatus { text: t })
    }
}

/// The battery that the texts of the attributes `status` and `capacity`
/// describe. The status is read first.
pub open spec fn battery_of(status_raw: Seq<char>, capacity_raw: Seq<char>) -> Result<
    PowerSupplyBattery,
    SupplyErrorView,
> {
    match status_of(status_raw) {
        Err(e) => Err(e),
        Ok(status) => match parsed_unsigned(trimmed(capacity_raw), u8::MAX as nat) {
            Some(capacity) => Ok(PowerSupplyBattery { status, capacity: capacity as u8 }),
            None => Err(SupplyErrorView::BadCapacity),
        },
    }
}

/// The mains supply that the text of the attribute `online` describes: it is
/// online when the text is the number 1.
pub open spec fn main_of(online_raw: Seq<char>) -> Result<PowerSupplyMain, SupplyErrorView> {
    match parsed_unsigned(trimmed(online_raw), u8::MAX as nat) {
        Some(n) => Ok(PowerSupplyMain { online: n == 1 }),
        None => Err(SupplyErrorView::BadOnline),
    }
}

impl SupplyKind {
    /// Reads the text of the attribute `type`.
    pub fn parse(raw: &str) -> (r: Result<SupplyKind, SupplyError>)
        ensures
            match r {
                Ok(k) => kind_of(raw@) == Ok::<SupplyKind, SupplyErrorView>(k),
                Err(e) => kind_of(raw@) == Err::<SupplyKind, SupplyErrorView>(e.deep_view()),
            },
    {
        let t = trim(raw);
        if same_text(t.as_str(), "Battery") {
            Ok(SupplyKind::Battery)
        } else if same_text(t.as_str(), "Mains") {
            Ok(SupplyKind::Main)
        } else {
            Err(SupplyError::UnknownType { text: t })
        }
    }
}

impl BatteryStatus {
    /// Reads the text of the attribute `status`.
    pub fn parse(raw: &str) -> (r: Result<BatteryStatus, SupplyError>)
        ensures
            match r {
                Ok(s) => status_of(raw@) == Ok::<BatteryStatus, SupplyErrorView>(s),
                Err(e) => status_of(raw@) == Err::<BatteryStatus, SupplyErrorView>(e.deep_view()),
            },
    {
        let t = trim(raw);
        if same_text(t.as_str(), "Unknown") {
            Ok(BatteryStatus::Unknown)
        } else if same_text(t.as_str(), "Charging") {
            Ok(BatteryStatus::Charging)
        } else if same_text(t.as_str(), "Discharging") {
            Ok(BatteryStatus::Discharging)
        } else if same_text(t.as_str(), "Not charging") {
            Ok(BatteryStatus::NotCharging)
        } else if same_text(t.as_str(), "Full") {
            Ok(BatteryStatus::Full)
        } else {
            Err(SupplyError::UnknownStatus { text: t })
        }
    }
}

impl PowerSupplyBattery {
    /// Reads the texts of the attributes `status` and `capacity`.
    pub fn parse(status_raw: &str, capacity_raw: &str) -> (r: Result<Self, SupplyError>)
        ensures
            match r {
                Ok(b) => battery_of(status_raw@, capacity_raw@) == Ok::<
                    PowerSupplyBattery,
                    SupplyErrorView,
                >(b),
                Err(e) => battery_of(status_raw@, capacity_raw@) == Err::<
                    PowerSupplyBattery,
                    SupplyErrorView,
                >(e.deep_view()),
            },
    {
        let status = match BatteryStatus::parse(status_raw) {
            Ok(s) => s,
            Err(e) => {
                return Err(e);
            },
        };
        let t = trim(capacity_raw);
        match parse_u8(t.as_str()) {
            Some(capacity) => Ok(PowerSupplyBattery { status, capacity }),
            None => Err(SupplyError::BadCapacity),
        }
    }
}

impl PowerSupplyMain {
    /// Reads the text of the attribute `online`.
    pub fn parse(online_raw: &str) -> (r: Result<Self, SupplyError>)
        ensures
            match r {
                Ok(m) => main_of(online_raw@) == Ok::<PowerSupplyMain, SupplyErrorView>(m),
                Err(e) => main_of(online_raw@) == Err::<PowerSupplyMain, SupplyErrorView>(
                    e.deep_view(),
                ),
            },
    {
        let t = trim(online_raw);
        match parse_u8(t.as_str()) {
            Some(n) => Ok(PowerSupplyMain { online: n == 1 }),
            None => Err(SupplyError::BadOnline),
        }
    }
}

/// The first mains supply at or after index `i`.
pub open spec fn first_main_from(supplies: Seq<PowerSupply>, i: int) -> Option<PowerSupplyMain>
    decreases supplies.len() - i,
{
    if i < 0 || i >= supplies.len() {
        None
    } else {
        match supplies[i].kind {
            PowerSupplyType::Main(m) => Some(m),
            PowerSupplyType::Battery(_) => first_main_from(supplies, i + 1),
        }
    }
}

/// The first battery at or after index `i`.
pub open spec fn first_battery_from(supplies: Seq<PowerSupply>, i: int) -> Option<
    PowerSupplyBattery,
>
    decreases supplies.len() - i,
{
    if i < 0 || i >= supplies.len() {
        None
    } else {
        match supplies[i].kind {
            PowerSupplyType::Battery(b) => Some(b),
            PowerSupplyType::Main(_) => first_battery_from(supplies, i + 1),
        }
    }
}

/// The first mains supply of the list.
pub open spec fn first_main(supplies: Seq<PowerSupply>) -> Option<PowerSupplyMain> {
    first_main_from(supplies, 0)
}

/// The first battery of the list.
pub open spec fn first_battery(supplies: Seq<PowerSupply>) -> Option<PowerSupplyBattery> {
    first_battery_from(supplies, 0)
}

/// The first mains supply of the list, if it holds one.
pub fn find_main(supplies: &Vec<PowerSupply>) -> (r: Option<PowerSupplyMain>)
    ensures
        r == first_main(supplies@),
{
    let mut i: usize = 0;
    while i < supplies.len()
        invariant
            i <= supplies.len(),
            first_main_from(supplies@, i as int) == first_main(supplies@),
        decreases supplies.len() - i,
    {
        if let Some(m) = supplies[i].kind.as_main() {
            return Some(*m);
        }
        i += 1;
    }
    None
}

/// The first battery of the list, if it holds one.
pub fn find_battery(supplies: &Vec<PowerSupply>) -> (r: Option<PowerSupplyBattery>)
    ensures
        r == first_battery(supplies@),
{
    let mut i: usize = 0;
    while i < supplies.len()
        invariant
            i <= supplies.len(),
            first_battery_from(supplies@, i as int) == first_battery(supplies@),
        decreases supplies.len() - i,
    {
        if let Some(b) = supplies[i].kind.as_battery() {
            return Some(*b);
        }
        i += 1;
    }
    None
}

} // verus!
