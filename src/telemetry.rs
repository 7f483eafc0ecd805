//! One battery's telemetry: its status and the three numeric attributes,
//! read from the raw text that the power-supply interface exposes.

use vstd::prelude::*;
use crate::text::{decimal_u32, parse_decimal_u32, same_text, trim_text, trimmed};

verus! {

/// Whether a battery is charging, discharging, or neither (full, or held at
/// a plateau by a charge-limiting policy).
#[derive(Clone, Copy, Debug, PartialEq, Eq, Structural)]
pub enum BatteryStatus {
    Charging,
    Discharging,
    Unknown,
}

/// One snapshot of one battery device.
#[derive(Debug)]
pub struct BatteryReading {
    /// Device name, such as `BAT0`.
    pub name: String,
    /// Energy stored now, in mWh.
    pub current_charge: u32,
    /// Energy stored when full, in mWh.
    pub max_charge: u32,
    /// Magnitude of the power flow, in mW.
    pub power_draw: u32,
    pub status: BatteryStatus,
}

/// The attribute files of a battery device.
#[derive(Clone, Copy, Debug, PartialEq, Eq, Structural)]
pub enum Attribute {
    EnergyNow,
    EnergyFull,
    PowerNow,
    Status,
}

/// A telemetry value that could not be read as its attribute requires.
#[derive(Clone, Copy, Debug, PartialEq, Eq, Structural)]
pub struct TelemetryError {
    pub attribute: Attribute,
}

/// The status that an exact status text stands for.
pub open spec fn status_of_text(t: Seq<char>) -> Option<BatteryStatus> {
    if t == "Charging"@ {
        Some(BatteryStatus::Charging)
    } else if t == "Discharging"@ {
        Some(BatteryStatus::Discharging)
    } else if t == "Unknown"@ || t == "Full"@ {
        Some(BatteryStatus::Unknown)
    } else {
        None
    }
}

/// Maps an already trimmed status text to a status; `None` for any text but
/// `Charging`, `Discharging`, `Unknown` and `Full`.
pub fn status_from_text(t: &str) -> (r: Option<BatteryStatus>)
    ensures
        r == status_of_text(t@),
{
    if same_text(t, "Charging") {
        Some(BatteryStatus::Charging)
    } else if same_text(t, "Discharging") {
        Some(BatteryStatus::Discharging)
    } else if same_text(t, "Unknown") || same_text(t, "Full") {
        Some(BatteryStatus::Unknown)
    } else {
        None
    }
}

/// Reads the content of a `status` file: surrounding whitespace is ignored.
pub fn get_status(raw: &str) -> (r: Option<BatteryStatus>)
    ensures
        r == status_of_text(trimmed(raw@)),
{
    status_from_text(trim_text(raw))
}

/// Reads the content of a numeric attribute file: surrounding whitespace is
/// ignored and the rest must be a decimal `u32`.
pub fn parse_attribute(raw: &str) -> (r: Option<u32>)
    ensures
        r == decimal_u32(trimmed(raw@)),
{
    parse_decimal_u32(trim_text(raw))
}

/// The reading that the raw contents of a device's four attribute files
/// describe, or the first attribute (in the order of the parameters) whose
/// content is malformed.
pub open spec fn reading_of(
    name: String,
    energy_now: Seq<char>,
    energy_full: Seq<char>,
    power_now: Seq<char>,
    status: Seq<char>,
) -> Result<BatteryReading, TelemetryError> {
    let cur = decimal_u32(trimmed(energy_now));
    let max = decimal_u32(trimmed(energy_full));
    let draw = decimal_u32(trimmed(power_now));
    let st = status_of_text(trimmed(status));
    if cur is None {
        Err(TelemetryError { attribute: Attribute::EnergyNow })
    } else if max is None {
        Err(TelemetryError { attribute: Attribute::EnergyFull })
    } else if draw is None {
        Err(TelemetryError { attribute: Attribute::PowerNow })
    } else if st is None {
        Err(TelemetryError { attribute: Attribute::Status })
    } else {
        Ok(BatteryReading {
            name,
            current_charge: cur->Some_0,
            max_charge: max->Some_0,
            power_draw: draw->Some_0,
            status: st->Some_0,
        })
    }
}

/// Builds the reading of device `name` from the raw contents of its
/// `energy_now`, `energy_full`, `power_now` and `status` files.
pub fn read_battery(
    name: String,
    energy_now: &str,
    energy_full: &str,
    power_now: &str,
    status: &str,
) -> (r: Result<BatteryReading, TelemetryError>)
    ensures
        r == reading_of(name, energy_now@, energy_full@, power_now@, status@),
{
    let current_charge = match parse_attribute(energy_now) {
        Some(v) => v,
        None => { return Err(TelemetryError { attribute: Attribute::EnergyNow }); },
    };
    let max_charge = match parse_attribute(energy_full) {
        Some(v) => v,
        None => { return Err(TelemetryError { attribute: Attribute::EnergyFull }); },
    };
    let power_draw = match parse_attribute(power_now) {
        Some(v) => v,
        None => { return Err(TelemetryError { attribute: Attribute::PowerNow }); },
    };
    let status = match get_status(status) {
        Some(s) => s,
        None => { return Err(TelemetryError { attribute: Attribute::Status }); },
    };
    Ok(BatteryReading { name, current_charge, max_charge, power_draw, status })
}

/// The raw contents of one battery device's four attribute files.
pub struct RawTelemetry {
    pub name: String,
    pub energy_now: String,
    pub energy_full: String,
    pub power_now: String,
    pub status: String,
}

/// The reading, or the error, that a device's raw telemetry gives.
pub open spec fn raw_reading(raw: RawTelemetry) -> Result<BatteryReading, TelemetryError> {
    reading_of(raw.name, raw.energy_now@, raw.energy_full@, raw.power_now@, raw.status@)
}

/// A malformed value of the device at `index` of the discovered devices.
#[derive(Clone, Copy, Debug, PartialEq, Eq, Structural)]
pub struct DeviceError {
    pub index: usize,
    pub error: TelemetryError,
}

/// Reads every discovered device, all or nothing: the readings in discovery
/// order when every device's telemetry is well formed, and otherwise the
/// error of the first device whose telemetry is not.
pub fn read_batteries(raws: &Vec<RawTelemetry>) -> (r: Result<Vec<BatteryReading>, DeviceError>)
    ensures
        r is Ok <==> (forall|i: int| 0 <= i < raws@.len() ==> (#[trigger] raw_reading(raws@[i])) is Ok),
        r is Ok ==> r->Ok_0@.len() == raws@.len() && (forall|i: int| 0 <= i < raws@.len()
            ==> r->Ok_0@[i] == (#[trigger] raw_reading(raws@[i]))->Ok_0),
        r is Err ==> r->Err_0.index < raws@.len()
            && raw_reading(raws@[r->Err_0.index as int]) == Err::<BatteryReading, TelemetryError>(r->Err_0.error)
            && (forall|j: int| 0 <= j < r->Err_0.index ==> (#[trigger] raw_reading(raws@[j])) is Ok),
{
    let mut readings: Vec<BatteryReading> = Vec::new();
    let mut i: usize = 0;
    while i < raws.len()
        invariant
            i <= raws@.len(),
            readings@.len() == i,
            forall|j: int| 0 <= j < i ==> (#[trigger] raw_reading(raws@[j])) is Ok,
            forall|j: int| 0 <= j < i ==> readings@[j] == (#[trigger] raw_reading(raws@[j]))->Ok_0,
        decreases raws@.len() - i,
    {
        let raw = &raws[i];
        match read_battery(raw.name.clone(), raw.energy_now.as_str(), raw.energy_full.as_str(),
            raw.power_now.as_str(), raw.status.as_str()) {
            Ok(reading) => {
                readings.push(reading);
            },
            Err(error) => {
                return Err(DeviceError { index: i, error });
            },
        }
        i = i + 1;
    }
    Ok(readings)
}

/// A device whose status text is none of the recognised ones makes the whole
/// set of devices unreadable: no readings, hence no report.
pub proof fn lemma_unrecognized_status_aborts(raws: Seq<RawTelemetry>, k: int)
    requires
        0 <= k < raws.len(),
        status_of_text(trimmed(raws[k].status@)) is None,
    ensures
        raw_reading(raws[k]) is Err,
        !(forall|i: int| 0 <= i < raws.len() ==> (#[trigger] raw_reading(raws[i])) is Ok),
{
    assert(raw_reading(raws[k]) is Err);
}

} // verus!
