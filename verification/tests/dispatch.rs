use uttesla::command::{Command, RemoteCall};
use uttesla::controller::{Controller, Request};
use uttesla::effect::{Effect, Outcome, Reply, Step};
use uttesla::error::{DispatchError, Failure};
use uttesla::session::{Product, VehicleId};
use uttesla::telemetry::{
    Quantity, RawChargeState, RawClimateState, RawDriveState, RawVehicleState,
    ReducedVehicleSnapshot,
};

const ANNA: VehicleId = VehicleId { raw: 7001 };
const ZOE: VehicleId = VehicleId { raw: 7002 };

/// A controller that has logged in and holds a roster of two vehicles.
fn ready() -> Controller {
    let mut controller = Controller::new();
    controller.begin(Request::Login);
    controller.resume(Reply::Done);
    controller.resume(Reply::Token(None));
    controller.resume(Reply::Token(Some("the-access-token".to_string())));
    controller.begin(Request::ResolveRoster);
    controller.resume(Reply::Products(vec![
        Product::Vehicle { id: ANNA, display_name: Some("Anna".to_string()) },
        Product::Other,
        Product::Vehicle { id: ZOE, display_name: Some("Zoe".to_string()) },
    ]));
    assert_eq!(controller.session().roster_len(), 2);
    assert_eq!(controller.log().len(), 0);
    controller
}

fn done() -> Step {
    Step::Finished(Outcome { text: String::new(), failure: None })
}

fn failed(failure: DispatchError) -> Step {
    Step::Finished(Outcome { text: String::new(), failure: Some(Failure::Dispatch(failure)) })
}

fn call(vehicle: VehicleId, call: RemoteCall) -> Step {
    Step::Perform(Effect::Remote(vehicle, call))
}

fn every_command() -> Vec<Command> {
    vec![
        Command::FetchVehicleSnapshot,
        Command::SetClimate { enable: true, celsius: 21 },
        Command::SetClimate { enable: false, celsius: 21 },
        Command::SetDoors { unlock: true },
        Command::SetDoors { unlock: false },
        Command::SetCharging { start: true, limit: 80 },
        Command::SetCharging { start: false, limit: 80 },
        Command::Honk,
        Command::FlashLights,
        Command::RemoteStartDrive,
    ]
}

fn state() -> RawVehicleState {
    RawVehicleState {
        state: "online".to_string(),
        drive_state: Some(RawDriveState {
            latitude: Some("47.3769".to_string()),
            longitude: Some("8.5417".to_string()),
        }),
        climate_state: Some(RawClimateState {
            inside_temp: Some("21.5".to_string()),
            outside_temp: None,
            driver_temp_setting: 22,
            fan_status: 2,
        }),
        charge_state: Some(RawChargeState {
            battery_level: 64,
            ideal_battery_range_km: Quantity { bits: 321.5f64.to_bits() },
            charge_rate: Quantity { bits: 0 },
            minutes_to_full_charge: 0,
            charge_energy_added: Quantity { bits: 7.25f64.to_bits() },
            charge_limit_soc: 90,
        }),
    }
}

fn snapshot() -> ReducedVehicleSnapshot {
    ReducedVehicleSnapshot {
        state: "online".to_string(),
        gps_pos: "47.3769,8.5417".to_string(),
        inside_temp: "21.5".to_string(),
        outside_temp: String::new(),
        driver_temp_setting: 22,
        hvac_enabled: true,
        battery_level: 64,
        battery_range: Quantity { bits: 321.5f64.to_bits() },
        charge_rate: Quantity { bits: 0 },
        minutes_to_full_charge: 0,
        charge_energy_added: Quantity { bits: 7.25f64.to_bits() },
        charge_limit: 90,
    }
}

#[test]
fn a_command_needs_credentials() {
    for command in every_command() {
        let mut controller = Controller::new();
        let step = controller.begin(Request::Vehicle { idx: 0, command });
        assert_eq!(step, failed(DispatchError::NotAuthenticated));
        assert_eq!(controller.log().len(), 1);
        assert_eq!(controller.log().line(0), "Not logged in");
        assert!(controller.is_idle());
    }
}

#[test]
fn an_index_outside_the_roster_ends_every_command_with_one_entry() {
    for idx in [2, 3, -1, i64::MAX, i64::MIN] {
        for command in every_command() {
            let mut controller = ready();
            let step = controller.begin(Request::Vehicle { idx, command });
            assert_eq!(step, failed(DispatchError::InvalidIndex(idx)));
            assert_eq!(controller.log().len(), 1);
            assert_eq!(controller.log().line(0), format!("Invalid vehicle index {}", idx));
            assert!(controller.is_idle());
            assert_eq!(controller.session().roster_len(), 2);
        }
    }
}

#[test]
fn an_empty_roster_has_no_valid_index() {
    let mut controller = Controller::new();
    controller.begin(Request::Login);
    controller.resume(Reply::Done);
    controller.resume(Reply::Token(None));
    controller.resume(Reply::Token(Some("the-access-token".to_string())));
    let step = controller.begin(Request::Vehicle { idx: 0, command: Command::Honk });
    assert_eq!(step, failed(DispatchError::InvalidIndex(0)));
    assert_eq!(controller.log().line(0), "Invalid vehicle index 0");
}

#[test]
fn the_index_picks_the_vehicle() {
    let mut controller = ready();
    let step = controller.begin(Request::Vehicle { idx: 0, command: Command::Honk });
    assert_eq!(step, call(ANNA, RemoteCall::HonkHorn));
    let mut controller = ready();
    let step = controller.begin(Request::Vehicle { idx: 1, command: Command::Honk });
    assert_eq!(step, call(ZOE, RemoteCall::HonkHorn));
}

#[test]
fn honk_is_one_call_and_one_entry() {
    let mut controller = ready();
    let step = controller.begin(Request::Vehicle { idx: 1, command: Command::Honk });
    assert_eq!(step, call(ZOE, RemoteCall::HonkHorn));
    assert!(!controller.is_idle());
    assert_eq!(controller.resume(Reply::Done), done());
    assert_eq!(controller.log().len(), 1);
    assert_eq!(controller.log().line(0), "horn honked");
    assert!(controller.is_idle());
}

#[test]
fn a_failed_honk_is_recorded() {
    let mut controller = ready();
    controller.begin(Request::Vehicle { idx: 1, command: Command::Honk });
    let step = controller.resume(Reply::Failed("vehicle unavailable".to_string()));
    assert_eq!(
        step,
        failed(DispatchError::RemoteFailed {
            call: RemoteCall::HonkHorn,
            idx: 1,
            cause: "vehicle unavailable".to_string(),
        })
    );
    assert_eq!(controller.log().len(), 1);
    assert_eq!(controller.log().line(0), "Failed to honk the horn 1: vehicle unavailable");
}

#[test]
fn flash_lights_is_one_call_and_one_entry() {
    let mut controller = ready();
    let step = controller.begin(Request::Vehicle { idx: 0, command: Command::FlashLights });
    assert_eq!(step, call(ANNA, RemoteCall::FlashLights));
    assert_eq!(controller.resume(Reply::Done), done());
    assert_eq!(controller.log().line(0), "lights flashed");
}

#[test]
fn remote_start_is_one_call_and_one_entry() {
    let mut controller = ready();
    let step = controller.begin(Request::Vehicle { idx: 0, command: Command::RemoteStartDrive });
    assert_eq!(step, call(ANNA, RemoteCall::RemoteStartDrive));
    assert_eq!(controller.resume(Reply::Done), done());
    assert_eq!(controller.log().line(0), "keyless driving active for two minutes");
}

#[test]
fn doors_unlock_and_lock() {
    let mut controller = ready();
    let step = controller.begin(Request::Vehicle { idx: 0, command: Command::SetDoors { unlock: true } });
    assert_eq!(step, call(ANNA, RemoteCall::DoorUnlock));
    assert_eq!(controller.resume(Reply::Done), done());
    assert_eq!(controller.log().line(0), "doors unlocked");

    let step =
        controller.begin(Request::Vehicle { idx: 0, command: Command::SetDoors { unlock: false } });
    assert_eq!(step, call(ANNA, RemoteCall::DoorLock));
    assert_eq!(controller.resume(Reply::Done), done());
    assert_eq!(controller.log().line(0), "doors locked");
    assert_eq!(controller.log().len(), 2);
}

#[test]
fn a_failed_door_call_is_recorded() {
    let mut controller = ready();
    controller.begin(Request::Vehicle { idx: 0, command: Command::SetDoors { unlock: false } });
    let step = controller.resume(Reply::Failed("offline".to_string()));
    assert_eq!(
        step,
        failed(DispatchError::RemoteFailed {
            call: RemoteCall::DoorLock,
            idx: 0,
            cause: "offline".to_string(),
        })
    );
    assert_eq!(controller.log().line(0), "Failed to (un)-lock the doors 0: offline");
}

#[test]
fn climate_sets_the_temperature_then_starts() {
    let mut controller = ready();
    let command = Command::SetClimate { enable: true, celsius: 21 };
    let step = controller.begin(Request::Vehicle { idx: 1, command });
    assert_eq!(step, call(ZOE, RemoteCall::SetTemperatures { celsius: 21 }));
    assert_eq!(controller.resume(Reply::Done), call(ZOE, RemoteCall::ClimateStart));
    assert_eq!(controller.log().len(), 0);
    assert_eq!(controller.resume(Reply::Done), done());
    assert_eq!(controller.log().len(), 1);
    assert_eq!(controller.log().line(0), "HVAC enabled to 21\u{c2}\u{b0}C");
}

#[test]
fn climate_sets_the_temperature_then_stops() {
    let mut controller = ready();
    let command = Command::SetClimate { enable: false, celsius: 18 };
    let step = controller.begin(Request::Vehicle { idx: 1, command });
    assert_eq!(step, call(ZOE, RemoteCall::SetTemperatures { celsius: 18 }));
    assert_eq!(controller.resume(Reply::Done), call(ZOE, RemoteCall::ClimateStop));
    assert_eq!(controller.resume(Reply::Done), done());
    assert_eq!(controller.log().len(), 1);
    assert_eq!(controller.log().line(0), "HVAC disabled, set to 18\u{c2}\u{b0}C");
}

#[test]
fn the_switch_off_line_follows_the_temperature() {
    for (celsius, numeral) in [(0, "0"), (16, "16"), (28, "28"), (-7, "-7")] {
        let mut controller = ready();
        let command = Command::SetClimate { enable: false, celsius };
        let step = controller.begin(Request::Vehicle { idx: 0, command });
        assert_eq!(step, call(ANNA, RemoteCall::SetTemperatures { celsius }));
        assert_eq!(controller.resume(Reply::Done), call(ANNA, RemoteCall::ClimateStop));
        assert_eq!(controller.resume(Reply::Done), done());
        assert_eq!(controller.log().len(), 1);
        assert_eq!(
            controller.log().line(0),
            format!("HVAC disabled, set to {}{}", numeral, "\u{c2}\u{b0}C")
        );
    }
}

#[test]
fn climate_records_a_temperature_below_zero() {
    let mut controller = ready();
    let command = Command::SetClimate { enable: true, celsius: -5 };
    controller.begin(Request::Vehicle { idx: 0, command });
    controller.resume(Reply::Done);
    controller.resume(Reply::Done);
    assert_eq!(controller.log().line(0), "HVAC enabled to -5\u{c2}\u{b0}C");
}

#[test]
fn climate_stops_where_the_temperature_cannot_be_set() {
    let mut controller = ready();
    let command = Command::SetClimate { enable: true, celsius: 21 };
    controller.begin(Request::Vehicle { idx: 1, command });
    let step = controller.resume(Reply::Failed("timeout".to_string()));
    assert_eq!(
        step,
        failed(DispatchError::RemoteFailed {
            call: RemoteCall::SetTemperatures { celsius: 21 },
            idx: 1,
            cause: "timeout".to_string(),
        })
    );
    assert_eq!(controller.log().len(), 1);
    assert_eq!(controller.log().line(0), "Failed to set hvac temperature 1: timeout");
    assert!(controller.is_idle());
}

#[test]
fn climate_fails_where_the_switch_fails() {
    let mut controller = ready();
    let command = Command::SetClimate { enable: true, celsius: 21 };
    controller.begin(Request::Vehicle { idx: 1, command });
    controller.resume(Reply::Done);
    let step = controller.resume(Reply::Failed("timeout".to_string()));
    assert_eq!(
        step,
        failed(DispatchError::RemoteFailed {
            call: RemoteCall::ClimateStart,
            idx: 1,
            cause: "timeout".to_string(),
        })
    );
    assert_eq!(controller.log().len(), 1);
    assert_eq!(controller.log().line(0), "Failed to enable or disable hvac 1: timeout");
}

#[test]
fn charging_sets_the_limit_then_starts() {
    let mut controller = ready();
    let command = Command::SetCharging { start: true, limit: 85 };
    let step = controller.begin(Request::Vehicle { idx: 0, command });
    assert_eq!(step, call(ANNA, RemoteCall::SetChargeLimit { percent: 85 }));
    assert_eq!(controller.resume(Reply::Done), call(ANNA, RemoteCall::ChargeStart));
    assert_eq!(controller.resume(Reply::Done), done());
    assert_eq!(controller.log().len(), 1);
    assert_eq!(controller.log().line(0), "charging started up to 85%");
}

#[test]
fn charging_starts_although_the_limit_of_150_is_refused() {
    let mut controller = ready();
    let command = Command::SetCharging { start: true, limit: 150 };
    let step = controller.begin(Request::Vehicle { idx: 0, command });
    assert_eq!(step, call(ANNA, RemoteCall::SetChargeLimit { percent: 150 }));
    let step = controller.resume(Reply::Failed("invalid percent".to_string()));
    assert_eq!(step, call(ANNA, RemoteCall::ChargeStart));
    assert_eq!(controller.log().len(), 1);
    assert_eq!(controller.log().line(0), "Failed to set charge limit 0: invalid percent");
    assert_eq!(controller.resume(Reply::Done), done());
    assert_eq!(controller.log().len(), 2);
    assert_eq!(controller.log().line(0), "charging started up to 150%");
    assert_eq!(controller.log().line(1), "Failed to set charge limit 0: invalid percent");
}

#[test]
fn charging_fails_where_the_start_fails() {
    let mut controller = ready();
    let command = Command::SetCharging { start: true, limit: 150 };
    controller.begin(Request::Vehicle { idx: 0, command });
    controller.resume(Reply::Failed("invalid percent".to_string()));
    let step = controller.resume(Reply::Failed("not plugged in".to_string()));
    assert_eq!(
        step,
        failed(DispatchError::RemoteFailed {
            call: RemoteCall::ChargeStart,
            idx: 0,
            cause: "not plugged in".to_string(),
        })
    );
    assert_eq!(controller.log().len(), 2);
    assert_eq!(controller.log().line(0), "Failed to start/stop charging 0: not plugged in");
    assert_eq!(controller.log().line(1), "Failed to set charge limit 0: invalid percent");
}

#[test]
fn charging_stops_with_one_call() {
    let mut controller = ready();
    let command = Command::SetCharging { start: false, limit: 85 };
    let step = controller.begin(Request::Vehicle { idx: 1, command });
    assert_eq!(step, call(ZOE, RemoteCall::ChargeStop));
    assert_eq!(controller.resume(Reply::Done), done());
    assert_eq!(controller.log().len(), 1);
    assert_eq!(controller.log().line(0), "charging stopped");
}

#[test]
fn a_snapshot_wakes_fetches_reduces_and_encodes() {
    let mut controller = ready();
    let step = controller.begin(Request::Vehicle { idx: 1, command: Command::FetchVehicleSnapshot });
    assert_eq!(step, call(ZOE, RemoteCall::WakeUp));
    assert_eq!(controller.resume(Reply::Done), call(ZOE, RemoteCall::VehicleData));
    let step = controller.resume(Reply::VehicleData(state()));
    assert_eq!(step, Step::Perform(Effect::EncodeSnapshot(snapshot())));
    let step = controller.resume(Reply::Text("{\"state\":\"online\"}".to_string()));
    assert_eq!(
        step,
        Step::Finished(Outcome { text: "{\"state\":\"online\"}".to_string(), failure: None })
    );
    assert_eq!(controller.log().len(), 0);
    assert!(controller.is_idle());
}

#[test]
fn a_snapshot_fails_where_the_vehicle_does_not_wake() {
    let mut controller = ready();
    controller.begin(Request::Vehicle { idx: 1, command: Command::FetchVehicleSnapshot });
    let step = controller.resume(Reply::Failed("timeout".to_string()));
    assert_eq!(
        step,
        failed(DispatchError::RemoteFailed {
            call: RemoteCall::WakeUp,
            idx: 1,
            cause: "timeout".to_string(),
        })
    );
    assert_eq!(controller.log().len(), 1);
    assert_eq!(controller.log().line(0), "Failed to wake up vehicle 1: timeout");
}

#[test]
fn a_snapshot_fails_where_the_state_does_not_come() {
    let mut controller = ready();
    controller.begin(Request::Vehicle { idx: 1, command: Command::FetchVehicleSnapshot });
    controller.resume(Reply::Done);
    let step = controller.resume(Reply::Failed("json decode error".to_string()));
    assert_eq!(
        step,
        failed(DispatchError::RemoteFailed {
            call: RemoteCall::VehicleData,
            idx: 1,
            cause: "json decode error".to_string(),
        })
    );
    assert_eq!(controller.log().line(0), "Failed to get vehicle 1: json decode error");
}

#[test]
fn a_snapshot_fails_where_it_cannot_be_encoded() {
    let mut controller = ready();
    controller.begin(Request::Vehicle { idx: 1, command: Command::FetchVehicleSnapshot });
    controller.resume(Reply::Done);
    controller.resume(Reply::VehicleData(state()));
    let step = controller.resume(Reply::Failed("key must be a string".to_string()));
    assert_eq!(step, failed(DispatchError::Encoding("key must be a string".to_string())));
    assert_eq!(
        controller.log().line(0),
        "Failed to serialize ReducedVehicleData: key must be a string"
    );
}

#[test]
fn a_reply_that_is_no_answer_fails_the_call() {
    let mut controller = ready();
    controller.begin(Request::Vehicle { idx: 0, command: Command::Honk });
    let step = controller.resume(Reply::VehicleData(state()));
    assert_eq!(
        step,
        failed(DispatchError::RemoteFailed {
            call: RemoteCall::HonkHorn,
            idx: 0,
            cause: "unexpected reply".to_string(),
        })
    );

    let mut controller = ready();
    controller.begin(Request::Vehicle { idx: 0, command: Command::FetchVehicleSnapshot });
    controller.resume(Reply::Done);
    let step = controller.resume(Reply::Done);
    assert_eq!(
        step,
        failed(DispatchError::RemoteFailed {
            call: RemoteCall::VehicleData,
            idx: 0,
            cause: "unexpected reply".to_string(),
        })
    );
}

#[test]
fn no_call_is_made_twice() {
    for command in every_command() {
        let mut controller = ready();
        let mut calls: Vec<RemoteCall> = Vec::new();
        let mut step = controller.begin(Request::Vehicle { idx: 0, command });
        loop {
            match step {
                Step::Perform(Effect::Remote(vehicle, call)) => {
                    assert_eq!(vehicle, ANNA);
                    assert!(!calls.contains(&call));
                    calls.push(call);
                    step = controller.resume(if call == RemoteCall::VehicleData {
                        Reply::VehicleData(state())
                    } else {
                        Reply::Done
                    });
                }
                Step::Perform(Effect::EncodeSnapshot(_)) => {
                    step = controller.resume(Reply::Text("{}".to_string()));
                }
                Step::Perform(other) => panic!("no effect of a command: {:?}", other),
                Step::Finished(outcome) => {
                    assert_eq!(outcome.failure, None);
                    break;
                }
            }
        }
        assert_eq!(calls[0], command.first_call());
        assert_eq!(calls.get(1).copied(), command.second_call());
        assert!(calls.len() <= 2);
    }
}

#[test]
fn the_log_shows_the_five_latest_outcomes() {
    let mut controller = ready();
    let commands = [
        Command::Honk,
        Command::FlashLights,
        Command::SetDoors { unlock: true },
        Command::SetDoors { unlock: false },
        Command::RemoteStartDrive,
        Command::SetCharging { start: false, limit: 0 },
    ];
    for command in commands {
        controller.begin(Request::Vehicle { idx: 0, command });
        controller.resume(Reply::Done);
    }
    controller.begin(Request::Vehicle { idx: 9, command: Command::Honk });
    assert_eq!(controller.log().len(), 7);
    assert_eq!(
        controller.poll_log(),
        "Invalid vehicle index 9\ncharging stopped\nkeyless driving active for two minutes\n\
         doors locked\ndoors unlocked"
    );
    assert_eq!(controller.log().len(), 5);
}

#[test]
fn only_the_charge_limit_is_tolerated() {
    assert!(RemoteCall::SetChargeLimit { percent: 150 }.is_tolerated());
    for call in [
        RemoteCall::WakeUp,
        RemoteCall::VehicleData,
        RemoteCall::SetTemperatures { celsius: 21 },
        RemoteCall::ClimateStart,
        RemoteCall::ClimateStop,
        RemoteCall::DoorUnlock,
        RemoteCall::DoorLock,
        RemoteCall::ChargeStart,
        RemoteCall::ChargeStop,
        RemoteCall::HonkHorn,
        RemoteCall::FlashLights,
        RemoteCall::RemoteStartDrive,
    ] {
        assert!(!call.is_tolerated());
        assert_eq!(call.is_yielding_data(), call == RemoteCall::VehicleData);
    }
}

#[test]
fn every_call_has_its_failure_line() {
    let line = |call: RemoteCall| call.failure_text(3, "why");
    assert_eq!(line(RemoteCall::WakeUp), "Failed to wake up vehicle 3: why");
    assert_eq!(line(RemoteCall::VehicleData), "Failed to get vehicle 3: why");
    assert_eq!(
        line(RemoteCall::SetTemperatures { celsius: 21 }),
        "Failed to set hvac temperature 3: why"
    );
    assert_eq!(line(RemoteCall::ClimateStart), "Failed to enable or disable hvac 3: why");
    assert_eq!(line(RemoteCall::ClimateStop), "Failed to enable or disable hvac 3: why");
    assert_eq!(line(RemoteCall::DoorUnlock), "Failed to (un)-lock the doors 3: why");
    assert_eq!(line(RemoteCall::DoorLock), "Failed to (un)-lock the doors 3: why");
    assert_eq!(
        line(RemoteCall::SetChargeLimit { percent: 80 }),
        "Failed to set charge limit 3: why"
    );
    assert_eq!(line(RemoteCall::ChargeStart), "Failed to start/stop charging 3: why");
    assert_eq!(line(RemoteCall::ChargeStop), "Failed to start/stop charging 3: why");
    assert_eq!(line(RemoteCall::HonkHorn), "Failed to honk the horn 3: why");
    assert_eq!(line(RemoteCall::FlashLights), "Failed to flash the lights 3: why");
    assert_eq!(line(RemoteCall::RemoteStartDrive), "Failed allow keyless driving 3: why");
}

#[test]
fn every_command_has_its_success_line() {
    assert_eq!(Command::FetchVehicleSnapshot.success_text(), None);
    assert_eq!(
        Command::SetClimate { enable: true, celsius: 20 }.success_text(),
        Some("HVAC enabled to 20\u{c2}\u{b0}C".to_string())
    );
    assert_eq!(
        Command::SetClimate { enable: false, celsius: 20 }.success_text(),
        Some("HVAC disabled, set to 20\u{c2}\u{b0}C".to_string())
    );
    assert_eq!(
        Command::SetDoors { unlock: true }.success_text(),
        Some("doors unlocked".to_string())
    );
    assert_eq!(Command::SetDoors { unlock: false }.success_text(), Some("doors locked".to_string()));
    assert_eq!(
        Command::SetCharging { start: true, limit: 255 }.success_text(),
        Some("charging started up to 255%".to_string())
    );
    assert_eq!(
        Command::SetCharging { start: false, limit: 255 }.success_text(),
        Some("charging stopped".to_string())
    );
    assert_eq!(Command::Honk.success_text(), Some("horn honked".to_string()));
    assert_eq!(Command::FlashLights.success_text(), Some("lights flashed".to_string()));
    assert_eq!(
        Command::RemoteStartDrive.success_text(),
        Some("keyless driving active for two minutes".to_string())
    );
}

#[test]
fn every_dispatch_error_has_its_line() {
    assert_eq!(DispatchError::NotAuthenticated.message(), "Not logged in");
    assert_eq!(DispatchError::InvalidIndex(-4).message(), "Invalid vehicle index -4");
    assert_eq!(
        DispatchError::RemoteFailed {
            call: RemoteCall::WakeUp,
            idx: 12,
            cause: "fetch error".to_string(),
        }
        .message(),
        "Failed to wake up vehicle 12: fetch error"
    );
    assert_eq!(
        DispatchError::Encoding("e".to_string()).message(),
        "Failed to serialize ReducedVehicleData: e"
    );
    assert_eq!(
        Failure::Dispatch(DispatchError::InvalidIndex(2)).message(),
        DispatchError::InvalidIndex(2).message()
    );
}

#[test]
fn a_cause_is_the_text_of_a_failure_or_says_what_came_instead() {
    assert_eq!(Reply::Failed("why".to_string()).into_cause(), "why");
    assert_eq!(Reply::Done.into_cause(), "unexpected reply");
    assert_eq!(Reply::Token(None).into_cause(), "unexpected reply");
}
