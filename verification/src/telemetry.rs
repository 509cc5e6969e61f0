//! From the vehicle's full state to the snapshot that the shell shows.

use crate::credentials::text_of;
use vstd::prelude::*;

verus! {

/// The target temperature that a snapshot reports where the climate section
/// is missing, in whole degrees.
pub const DEFAULT_DRIVER_TEMP_SETTING: i64 = 20;

/// The charge limit that a snapshot reports where the charge section is
/// missing, in percent.
pub const DEFAULT_CHARGE_LIMIT: i64 = 80;

/// The kilometres in a mile, in millionths. The service reports ranges in miles,
/// a snapshot carries kilometres.
pub const KM_PER_MILE_MILLIONTHS: u64 = 1_609_344;

/// A real-valued reading, carried as the bit pattern of its binary64 form.
/// The library hands such readings on and never computes with them.
#[derive(Clone, Copy, Debug, PartialEq, Eq, Structural)]
pub struct Quantity {
    pub bits: u64,
}

impl Quantity {
    /// The reading zero.
    pub open spec fn zero() -> Quantity {
        Quantity { bits: 0 }
    }
}

/// Where the vehicle is. Each coordinate comes as its decimal text.
#[derive(Clone, Debug, PartialEq, Eq)]
pub struct RawDriveState {
    pub latitude: Option<String>,
    pub longitude: Option<String>,
}

/// The cabin's climate. Each measured temperature comes as its decimal text.
#[derive(Clone, Debug, PartialEq, Eq)]
pub struct RawClimateState {
    pub inside_temp: Option<String>,
    pub outside_temp: Option<String>,
    /// The driver's target temperature in whole degrees.
    pub driver_temp_setting: i64,
    /// The fan's level; 0 while it stands still.
    pub fan_status: i64,
}

/// The battery and the charger.
#[derive(Clone, Copy, Debug, PartialEq, Eq, Structural)]
pub struct RawChargeState {
    pub battery_level: i64,
    /// The ideal range, already in kilometres.
    pub ideal_battery_range_km: Quantity,
    pub charge_rate: Quantity,
    pub minutes_to_full_charge: i64,
    pub charge_energy_added: Quantity,
    pub charge_limit_soc: i64,
}

/// What the service reports of one vehicle, as far as a snapshot reads it.
/// Each of the three sections may be missing.
#[derive(Clone, Debug, PartialEq, Eq)]
pub struct RawVehicleState {
    pub state: String,
    pub drive_state: Option<RawDriveState>,
    pub climate_state: Option<RawClimateState>,
    pub charge_state: Option<RawChargeState>,
}

/// The snapshot of one vehicle that the shell shows. Every field has a value,
/// whatever the service left out.
#[derive(Clone, Debug, PartialEq, Eq)]
pub struct ReducedVehicleSnapshot {
    pub state: String,
    pub gps_pos: String,
    pub inside_temp: String,
    pub outside_temp: String,
    pub driver_temp_setting: i64,
    pub hvac_enabled: bool,
    pub battery_level: i64,
    pub battery_range: Quantity,
    pub charge_rate: Quantity,
    pub minutes_to_full_charge: i64,
    pub charge_energy_added: Quantity,
    pub charge_limit: i64,
}

/// [`RawDriveState`] as plain text.
#[verifier::ext_equal]
pub struct RawDriveStateView {
    pub latitude: Option<Seq<char>>,
    pub longitude: Option<Seq<char>>,
}

/// [`RawClimateState`] as plain text.
#[verifier::ext_equal]
pub struct RawClimateStateView {
    pub inside_temp: Option<Seq<char>>,
    pub outside_temp: Option<Seq<char>>,
    pub driver_temp_setting: i64,
    pub fan_status: i64,
}

/// [`RawVehicleState`] as plain text.
#[verifier::ext_equal]
pub struct RawVehicleStateView {
    pub state: Seq<char>,
    pub drive_state: Option<RawDriveStateView>,
    pub climate_state: Option<RawClimateStateView>,
    pub charge_state: Option<RawChargeState>,
}

/// [`ReducedVehicleSnapshot`] as plain text.
#[verifier::ext_equal]
pub struct ReducedVehicleSnapshotView {
    pub state: Seq<char>,
    pub gps_pos: Seq<char>,
    pub inside_temp: Seq<char>,
    pub outside_temp: Seq<char>,
    pub driver_temp_setting: i64,
    pub hvac_enabled: bool,
    pub battery_level: i64,
    pub battery_range: Quantity,
    pub charge_rate: Quantity,
    pub minutes_to_full_charge: i64,
    pub charge_energy_added: Quantity,
    pub charge_limit: i64,
}

impl View for RawDriveState {
    type V = RawDriveStateView;

    open spec fn view(&self) -> RawDriveStateView {
        RawDriveStateView { latitude: text_of(self.latitude), longitude: text_of(self.longitude) }
    }
}

impl View for RawClimateState {
    type V = RawClimateStateView;

    open spec fn view(&self) -> RawClimateStateView {
        RawClimateStateView {
            inside_temp: text_of(self.inside_temp),
            outside_temp: text_of(self.outside_temp),
            driver_temp_setting: self.driver_temp_setting,
            fan_status: self.fan_status,
        }
    }
}

impl View for RawVehicleState {
    type V = RawVehicleStateView;

    open spec fn view(&self) -> RawVehicleStateView {
        RawVehicleStateView {
            state: self.state@,
            drive_state: match self.drive_state {
                Some(d) => Some(d@),
                None => None,
            },
            climate_state: match self.climate_state {
                Some(c) => Some(c@),
                None => None,
            },
            charge_state: self.charge_state,
        }
    }
}

impl View for ReducedVehicleSnapshot {
    type V = ReducedVehicleSnapshotView;

    open spec fn view(&self) -> ReducedVehicleSnapshotView {
        ReducedVehicleSnapshotView {
            state: self.state@,
            gps_pos: self.gps_pos@,
            inside_temp: self.inside_temp@,
            outside_temp: self.outside_temp@,
            driver_temp_setting: self.driver_temp_setting,
            hvac_enabled: self.hvac_enabled,
            battery_level: self.battery_level,
            battery_range: self.battery_range,
            charge_rate: self.charge_rate,
            minutes_to_full_charge: self.minutes_to_full_charge,
            charge_energy_added: self.charge_energy_added,
            charge_limit: self.charge_limit,
        }
    }
}

/// The text of a coordinate: its own where it is known, that of zero where
/// it is not.
pub open spec fn coordinate(known: Option<Seq<char>>) -> Seq<char> {
    match known {
        Some(text) => text,
        None => "0"@,
    }
}

/// The position as latitude, a comma and longitude; nothing where the drive
/// section is missing.
pub open spec fn position(drive: Option<RawDriveStateView>) -> Seq<char> {
    match drive {
        Some(d) => coordinate(d.latitude) + ","@ + coordinate(d.longitude),
        None => Seq::<char>::empty(),
    }
}

/// The text of a measured temperature; nothing where it is unknown.
pub open spec fn reading(known: Option<Seq<char>>) -> Seq<char> {
    match known {
        Some(text) => text,
        None => Seq::<char>::empty(),
    }
}

/// The snapshot that stands for `raw`: each field from its section, or the
/// field's default where the section is missing.
pub open spec fn reduced(raw: RawVehicleStateView) -> ReducedVehicleSnapshotView {
    ReducedVehicleSnapshotView {
        state: raw.state,
        gps_pos: position(raw.drive_state),
        inside_temp: match raw.climate_state {
            Some(c) => reading(c.inside_temp),
            None => Seq::<char>::empty(),
        },
        outside_temp: match raw.climate_state {
            Some(c) => reading(c.outside_temp),
            None => Seq::<char>::empty(),
        },
        driver_temp_setting: match raw.climate_state {
            Some(c) => c.driver_temp_setting,
            None => DEFAULT_DRIVER_TEMP_SETTING,
        },
        hvac_enabled: match raw.climate_state {
            Some(c) => c.fan_status != 0,
            None => false,
        },
        battery_level: match raw.charge_state {
            Some(c) => c.battery_level,
            None => 0,
        },
        battery_range: match raw.charge_state {
            Some(c) => c.ideal_battery_range_km,
            None => Quantity::zero(),
        },
        charge_rate: match raw.charge_state {
            Some(c) => c.charge_rate,
            None => Quantity::zero(),
        },
        minutes_to_full_charge: match raw.charge_state {
            Some(c) => c.minutes_to_full_charge,
            None => 0,
        },
        charge_energy_added: match raw.charge_state {
            Some(c) => c.charge_energy_added,
            None => Quantity::zero(),
        },
        charge_limit: match raw.charge_state {
            Some(c) => c.charge_limit_soc,
            None => DEFAULT_CHARGE_LIMIT,
        },
    }
}

fn coordinate_text(known: Option<String>) -> (text: String)
    ensures
        text@ == coordinate(text_of(known)),
{
    match known {
        Some(text) => text,
        None => String::from_str("0"),
    }
}

fn reading_text(known: Option<String>) -> (text: String)
    ensures
        text@ == reading(text_of(known)),
{
    match known {
        Some(text) => text,
        None => String::new(),
    }
}

/// Reduces the vehicle's full state to its snapshot. Never fails: what the
/// service left out shows as the field's default.
pub fn reduce(raw: RawVehicleState) -> (snapshot: ReducedVehicleSnapshot)
    ensures
        snapshot@ == reduced(raw@),
{
    let gps_pos = match raw.drive_state {
        Some(drive) => {
            let mut text = coordinate_text(drive.latitude);
            text.append(",");
            text.append(coordinate_text(drive.longitude).as_str());
            text
        },
        None => String::new(),
    };
    let (inside_temp, outside_temp, driver_temp_setting, hvac_enabled) = match raw.climate_state {
        Some(climate) => (
            reading_text(climate.inside_temp),
            reading_text(climate.outside_temp),
            climate.driver_temp_setting,
            climate.fan_status != 0,
        ),
        None => (String::new(), String::new(), DEFAULT_DRIVER_TEMP_SETTING, false),
    };
    let zero = Quantity { bits: 0 };
    let (
        battery_level,
        battery_range,
        charge_rate,
        minutes_to_full_charge,
        charge_energy_added,
        charge_limit,
    ) = match raw.charge_state {
        Some(charge) => (
            charge.battery_level,
            charge.ideal_battery_range_km,
            charge.charge_rate,
            charge.minutes_to_full_charge,
            charge.charge_energy_added,
            charge.charge_limit_soc,
        ),
        None => (0, zero, zero, 0, zero, DEFAULT_CHARGE_LIMIT),
    };
    ReducedVehicleSnapshot {
        state: raw.state,
        gps_pos,
        inside_temp,
        outside_temp,
        driver_temp_setting,
        hvac_enabled,
        battery_level,
        battery_range,
        charge_rate,
        minutes_to_full_charge,
        charge_energy_added,
        charge_limit,
    }
}

/// A section that the service left out shows as the defaults of its fields:
/// no position without the drive section; no temperatures, a target of
/// `DEFAULT_DRIVER_TEMP_SETTING` degrees and the climate off without the
/// climate section; zero readings and a limit of `DEFAULT_CHARGE_LIMIT`
/// percent without the charge section. The state label is always handed on.
pub proof fn law_missing_sections_show_defaults(raw: RawVehicleStateView)
    ensures
        reduced(raw).state == raw.state,
        raw.drive_state is None ==> reduced(raw).gps_pos.len() == 0,
        raw.climate_state is None ==> {
            &&& reduced(raw).inside_temp.len() == 0
            &&& reduced(raw).outside_temp.len() == 0
            &&& reduced(raw).driver_temp_setting == 20
            &&& !reduced(raw).hvac_enabled
        },
        raw.charge_state is None ==> {
            &&& reduced(raw).battery_level == 0
            &&& reduced(raw).battery_range.bits == 0
            &&& reduced(raw).charge_rate.bits == 0
            &&& reduced(raw).minutes_to_full_charge == 0
            &&& reduced(raw).charge_energy_added.bits == 0
            &&& reduced(raw).charge_limit == 80
        },
{
}

} // verus!
