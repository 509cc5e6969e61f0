//! The commands that the shell can give for a vehicle, and the calls to the
//! vehicle service that each of them takes.

use crate::text::{decimal, format_i64};
use vstd::prelude::*;

verus! {

/// One call to the vehicle service on behalf of one vehicle.
#[derive(Clone, Copy, Debug, PartialEq, Eq, Structural)]
pub enum RemoteCall {
    WakeUp,
    VehicleData,
    /// Sets the driver's and the passenger's target temperature to the same
    /// value, in degrees Celsius.
    SetTemperatures { celsius: i64 },
    ClimateStart,
    ClimateStop,
    DoorUnlock,
    DoorLock,
    SetChargeLimit { percent: u8 },
    ChargeStart,
    ChargeStop,
    HonkHorn,
    FlashLights,
    RemoteStartDrive,
}

/// What the shell can ask of one vehicle.
#[derive(Clone, Copy, Debug, PartialEq, Eq, Structural)]
pub enum Command {
    /// Wake the vehicle, fetch its state and show its snapshot.
    FetchVehicleSnapshot,
    /// Set the target temperature, then switch the climate on or off. The
    /// line that records it tells both: the state asked for and the
    /// temperature.
    SetClimate { enable: bool, celsius: i64 },
    /// Unlock or lock the doors.
    SetDoors { unlock: bool },
    /// Start charging up to a limit in percent, or stop charging.
    SetCharging { start: bool, limit: u8 },
    Honk,
    FlashLights,
    RemoteStartDrive,
}

impl RemoteCall {
    /// Whether the command goes on after this call has failed. Only setting
    /// the charge limit is of that kind: its failure is recorded and charging
    /// is started all the same.
    pub open spec fn tolerated(self) -> bool {
        self is SetChargeLimit
    }

    /// Whether a success of this call hands back the vehicle's state.
    pub open spec fn yields_data(self) -> bool {
        self is VehicleData
    }

    /// How the line on a failure of this call begins.
    pub open spec fn failure_prefix(self) -> Seq<char> {
        match self {
            RemoteCall::WakeUp => "Failed to wake up vehicle "@,
            RemoteCall::VehicleData => "Failed to get vehicle "@,
            RemoteCall::SetTemperatures { .. } => "Failed to set hvac temperature "@,
            RemoteCall::ClimateStart => "Failed to enable or disable hvac "@,
            RemoteCall::ClimateStop => "Failed to enable or disable hvac "@,
            RemoteCall::DoorUnlock => "Failed to (un)-lock the doors "@,
            RemoteCall::DoorLock => "Failed to (un)-lock the doors "@,
            RemoteCall::SetChargeLimit { .. } => "Failed to set charge limit "@,
            RemoteCall::ChargeStart => "Failed to start/stop charging "@,
            RemoteCall::ChargeStop => "Failed to start/stop charging "@,
            RemoteCall::HonkHorn => "Failed to honk the horn "@,
            RemoteCall::FlashLights => "Failed to flash the lights "@,
            RemoteCall::RemoteStartDrive => "Failed allow keyless driving "@,
        }
    }

    /// The line on a failure of this call for the vehicle at `idx`: what was
    /// tried, the vehicle's index, and the cause as the service gave it.
    pub open spec fn failure_line(self, idx: i64, cause: Seq<char>) -> Seq<char> {
        self.failure_prefix() + decimal(idx as int) + ": "@ + cause
    }

    /// Tells whether the command goes on after this call has failed.
    pub fn is_tolerated(self) -> (b: bool)
        ensures
            b == self.tolerated(),
    {
        match self {
            RemoteCall::SetChargeLimit { .. } => true,
            _ => false,
        }
    }

    /// Tells whether a success of this call hands back the vehicle's state.
    pub fn is_yielding_data(self) -> (b: bool)
        ensures
            b == self.yields_data(),
    {
        match self {
            RemoteCall::VehicleData => true,
            _ => false,
        }
    }

    fn failure_prefix_text(self) -> (text: &'static str)
        ensures
            text@ == self.failure_prefix(),
    {
        match self {
            RemoteCall::WakeUp => "Failed to wake up vehicle ",
            RemoteCall::VehicleData => "Failed to get vehicle ",
            RemoteCall::SetTemperatures { .. } => "Failed to set hvac temperature ",
            RemoteCall::ClimateStart => "Failed to enable or disable hvac ",
            RemoteCall::ClimateStop => "Failed to enable or disable hvac ",
            RemoteCall::DoorUnlock => "Failed to (un)-lock the doors ",
            RemoteCall::DoorLock => "Failed to (un)-lock the doors ",
            RemoteCall::SetChargeLimit { .. } => "Failed to set charge limit ",
            RemoteCall::ChargeStart => "Failed to start/stop charging ",
            RemoteCall::ChargeStop => "Failed to start/stop charging ",
            RemoteCall::HonkHorn => "Failed to honk the horn ",
            RemoteCall::FlashLights => "Failed to flash the lights ",
            RemoteCall::RemoteStartDrive => "Failed allow keyless driving ",
        }
    }

    /// Writes the line on a failure of this call for the vehicle at `idx`.
    pub fn failure_text(self, idx: i64, cause: &str) -> (line: String)
        ensures
            line@ == self.failure_line(idx, cause@),
    {
        let mut line = String::from_str(self.failure_prefix_text());
        line.append(format_i64(idx).as_str());
        line.append(": ");
        line.append(cause);
        line
    }
}

/// How the line on a change of the climate begins: with the state that was
/// asked for. The temperature follows it.
pub open spec fn climate_prefix(enable: bool) -> Seq<char> {
    if enable {
        "HVAC enabled to "@
    } else {
        "HVAC disabled, set to "@
    }
}

impl Command {
    /// The call that the command begins with.
    pub open spec fn first(self) -> RemoteCall {
        match self {
            Command::FetchVehicleSnapshot => RemoteCall::WakeUp,
            Command::SetClimate { celsius, .. } => RemoteCall::SetTemperatures { celsius },
            Command::SetDoors { unlock } => if unlock {
                RemoteCall::DoorUnlock
            } else {
                RemoteCall::DoorLock
            },
            Command::SetCharging { start, limit } => if start {
                RemoteCall::SetChargeLimit { percent: limit }
            } else {
                RemoteCall::ChargeStop
            },
            Command::Honk => RemoteCall::HonkHorn,
            Command::FlashLights => RemoteCall::FlashLights,
            Command::RemoteStartDrive => RemoteCall::RemoteStartDrive,
        }
    }

    /// The call that follows the first one, where the command takes two.
    pub open spec fn second(self) -> Option<RemoteCall> {
        match self {
            Command::FetchVehicleSnapshot => Some(RemoteCall::VehicleData),
            Command::SetClimate { enable, .. } => Some(
                if enable {
                    RemoteCall::ClimateStart
                } else {
                    RemoteCall::ClimateStop
                },
            ),
            Command::SetCharging { start, .. } => if start {
                Some(RemoteCall::ChargeStart)
            } else {
                None
            },
            _ => None,
        }
    }

    /// The line that records the command's success; none for a snapshot,
    /// which the shell shows instead.
    pub open spec fn success_line(self) -> Option<Seq<char>> {
        match self {
            Command::FetchVehicleSnapshot => None,
            Command::SetClimate { enable, celsius } => Some(
                climate_prefix(enable) + decimal(celsius as int) + "\u{c2}\u{b0}C"@,
            ),
            Command::SetDoors { unlock } => Some(
                if unlock {
                    "doors unlocked"@
                } else {
                    "doors locked"@
                },
            ),
            Command::SetCharging { start, limit } => Some(
                if start {
                    "charging started up to "@ + decimal(limit as int) + "%"@
                } else {
                    "charging stopped"@
                },
            ),
            Command::Honk => Some("horn honked"@),
            Command::FlashLights => Some("lights flashed"@),
            Command::RemoteStartDrive => Some("keyless driving active for two minutes"@),
        }
    }

    /// Returns the call that the command begins with.
    pub fn first_call(self) -> (call: RemoteCall)
        ensures
            call == self.first(),
    {
        match self {
            Command::FetchVehicleSnapshot => RemoteCall::WakeUp,
            Command::SetClimate { celsius, .. } => RemoteCall::SetTemperatures { celsius },
            Command::SetDoors { unlock } => if unlock {
                RemoteCall::DoorUnlock
            } else {
                RemoteCall::DoorLock
            },
            Command::SetCharging { start, limit } => if start {
                RemoteCall::SetChargeLimit { percent: limit }
            } else {
                RemoteCall::ChargeStop
            },
            Command::Honk => RemoteCall::HonkHorn,
            Command::FlashLights => RemoteCall::FlashLights,
            Command::RemoteStartDrive => RemoteCall::RemoteStartDrive,
        }
    }

    /// Returns the call that follows the first one, where the command takes
    /// two.
    pub fn second_call(self) -> (call: Option<RemoteCall>)
        ensures
            call == self.second(),
    {
        match self {
            Command::FetchVehicleSnapshot => Some(RemoteCall::VehicleData),
            Command::SetClimate { enable, .. } => if enable {
                Some(RemoteCall::ClimateStart)
            } else {
                Some(RemoteCall::ClimateStop)
            },
            Command::SetCharging { start, .. } => if start {
                Some(RemoteCall::ChargeStart)
            } else {
                None
            },
            _ => None,
        }
    }

    /// Writes the line that records the command's success, where it has one.
    pub fn success_text(self) -> (line: Option<String>)
        ensures
            match line {
                Some(text) => self.success_line() == Some(text@),
                None => self.success_line() is None,
            },
    {
        match self {
            Command::FetchVehicleSnapshot => None,
            Command::SetClimate { enable, celsius } => {
                let mut line = String::from_str(
                    if enable {
                        "HVAC enabled to "
                    } else {
                        "HVAC disabled, set to "
                    },
                );
                line.append(format_i64(celsius).as_str());
                line.append("\u{c2}\u{b0}C");
                Some(line)
            },
            Command::SetDoors { unlock } => if unlock {
                Some(String::from_str("doors unlocked"))
            } else {
                Some(String::from_str("doors locked"))
            },
            Command::SetCharging { start, limit } => if start {
                let mut line = String::from_str("charging started up to ");
                line.append(format_i64(limit as i64).as_str());
                line.append("%");
                Some(line)
            } else {
                Some(String::from_str("charging stopped"))
            },
            Command::Honk => Some(String::from_str("horn honked")),
            Command::FlashLights => Some(String::from_str("lights flashed")),
            Command::RemoteStartDrive => Some(
                String::from_str("keyless driving active for two minutes"),
            ),
        }
    }
}

/// The line on a change of the climate tells the state that was asked for
/// and the temperature, switched on or off alike: it is the state's words,
/// the temperature's numeral and the unit. The two states give different
/// lines for every pair of temperatures.
pub proof fn law_climate_line_tells_state_and_temperature(enable: bool, celsius: i64, other: i64)
    ensures
        (Command::SetClimate { enable, celsius }).success_line() == Some(
            climate_prefix(enable) + decimal(celsius as int) + "\u{c2}\u{b0}C"@,
        ),
        (Command::SetClimate { enable: true, celsius }).success_line() != (Command::SetClimate {
            enable: false,
            celsius: other,
        }).success_line(),
{
    reveal_strlit("HVAC enabled to ");
    reveal_strlit("HVAC disabled, set to ");
    let on = climate_prefix(true) + decimal(celsius as int) + "\u{c2}\u{b0}C"@;
    let off = climate_prefix(false) + decimal(other as int) + "\u{c2}\u{b0}C"@;
    // the two lines part at the letter after "HVAC "
    assert(on[5] == 'e');
    assert(off[5] == 'd');
}

} // verus!
