use booster_emulator::commands::{
    brake_command, handle_command, precharge_command, reset_command, start_command, state_label,
    STATUS_BAD_REQUEST, STATUS_OK,
};
use booster_emulator::structs::{Command, MessageType, Motion, State, Topic, Vehicle};

fn vehicle(state: State, voltage_v: u32) -> Vehicle {
    Vehicle { state, voltage_v }
}

const ALL_STATES: [State; 7] = [
    State::IDLE,
    State::PRECHARGE,
    State::READY,
    State::RUNNING,
    State::BOOSTING,
    State::BRAKING,
    State::STOPPED,
];

#[test]
fn new_vehicle_is_idle_and_unpowered() {
    assert_eq!(Vehicle::new(), vehicle(State::IDLE, 0));
}

#[test]
fn precharge_from_idle_starts() {
    let mut v = vehicle(State::IDLE, 0);
    let m = precharge_command(&mut v);
    assert_eq!(v, vehicle(State::PRECHARGE, 0));
    assert_eq!(m.topic, Topic::message);
    assert_eq!(m.payload.message_type, MessageType::info);
    assert_eq!(m.payload.content, "Precharge started");
}

#[test]
fn precharge_refused_with_voltage() {
    let mut v = vehicle(State::IDLE, 25);
    let m = precharge_command(&mut v);
    assert_eq!(v, vehicle(State::IDLE, 25));
    assert_eq!(m.payload.message_type, MessageType::error);
    assert_eq!(m.payload.content, "Could not precharge, voltage>0 or not in IDLE state.");
}

#[test]
fn precharge_refused_outside_idle() {
    for s in ALL_STATES.iter().copied().filter(|s| *s != State::IDLE) {
        let mut v = vehicle(s, 0);
        let m = precharge_command(&mut v);
        assert_eq!(v, vehicle(s, 0));
        assert_eq!(m.payload.message_type, MessageType::error);
    }
}

#[test]
fn start_from_ready_launches() {
    let mut v = vehicle(State::READY, 400);
    let (m, motion) = start_command(&mut v, true, &40.0f32.to_string());
    assert_eq!(v, vehicle(State::RUNNING, 400));
    assert_eq!(motion, Motion::Launch { velocity_kmh: 4, take_sent_mass: true });
    assert_eq!(m.payload.message_type, MessageType::info);
    assert_eq!(m.payload.content, "Booster test started. Mass: 40 kg");
}

#[test]
fn start_quotes_any_sent_mass() {
    for (mass, text) in [(40.5f32, "40.5"), (0.0, "0"), (-3.25, "-3.25"), (1205.0, "1205")] {
        let mut v = vehicle(State::READY, 400);
        let (m, motion) = start_command(&mut v, true, &mass.to_string());
        assert_eq!(v, vehicle(State::RUNNING, 400));
        assert_eq!(motion, Motion::Launch { velocity_kmh: 4, take_sent_mass: true });
        assert_eq!(m.payload.message_type, MessageType::info);
        assert_eq!(m.payload.content, format!("Booster test started. Mass: {} kg", text));
    }
}

#[test]
fn start_without_mass_keeps_mass() {
    let mut v = vehicle(State::READY, 400);
    let (m, motion) = start_command(&mut v, false, "40");
    assert_eq!(v, vehicle(State::RUNNING, 400));
    assert_eq!(motion, Motion::Launch { velocity_kmh: 4, take_sent_mass: false });
    assert_eq!(m.payload.content, "Booster test started. Mass: 40 kg");
}

#[test]
fn start_refused_below_full_voltage() {
    let mut v = vehicle(State::READY, 375);
    let (m, motion) = start_command(&mut v, true, "40");
    assert_eq!(v, vehicle(State::READY, 375));
    assert_eq!(motion, Motion::Keep);
    assert_eq!(m.payload.message_type, MessageType::error);
    assert_eq!(m.payload.content, "Could not start, voltage<400 or not in READY state.");
}

#[test]
fn start_refused_outside_ready() {
    let mut v = vehicle(State::IDLE, 400);
    let (m, motion) = start_command(&mut v, true, "40");
    assert_eq!(v.state, State::IDLE);
    assert_eq!(motion, Motion::Keep);
    assert_eq!(m.payload.message_type, MessageType::error);
}

#[test]
fn brake_while_running_or_boosting() {
    for s in [State::RUNNING, State::BOOSTING] {
        let mut v = vehicle(s, 400);
        let m = brake_command(&mut v);
        assert_eq!(v, vehicle(State::BRAKING, 400));
        assert_eq!(m.payload.message_type, MessageType::info);
        assert_eq!(m.payload.content, "Braking initiated.");
    }
}

#[test]
fn brake_refused_names_state() {
    let mut v = vehicle(State::READY, 400);
    let m = brake_command(&mut v);
    assert_eq!(v, vehicle(State::READY, 400));
    assert_eq!(m.payload.message_type, MessageType::error);
    assert_eq!(m.payload.content, "Command BRAKE not allowed in State READY.");
    for s in [State::IDLE, State::PRECHARGE, State::READY, State::BRAKING, State::STOPPED] {
        let mut v = vehicle(s, 0);
        let m = brake_command(&mut v);
        assert_eq!(m.payload.content, format!("Command BRAKE not allowed in State {:?}.", s));
    }
}

#[test]
fn state_labels_are_debug_names() {
    for s in ALL_STATES {
        assert_eq!(state_label(s), format!("{:?}", s));
    }
}

#[test]
fn reset_from_every_state() {
    for s in ALL_STATES {
        let mut v = vehicle(s, 300);
        let (m, motion) = reset_command(&mut v);
        assert_eq!(v, vehicle(State::IDLE, 0));
        assert_eq!(motion, Motion::Clear { mass_kg: 40 });
        assert_eq!(m.payload.message_type, MessageType::info);
        assert_eq!(m.payload.content, "System reset.");
    }
}

#[test]
fn reset_twice_is_reset_once() {
    let mut v = vehicle(State::BRAKING, 400);
    reset_command(&mut v);
    let once = v;
    reset_command(&mut v);
    assert_eq!(v, once);
}

#[test]
fn handle_command_refusal_is_bad_request_and_inert() {
    let mut v = vehicle(State::IDLE, 0);
    let r = handle_command(&mut v, Command::START, true, "40");
    assert_eq!(r.status, 400);
    assert_eq!(r.status, STATUS_BAD_REQUEST);
    assert_eq!(r.motion, Motion::Keep);
    assert_eq!(r.message.payload.message_type, MessageType::error);
    assert_eq!(v, vehicle(State::IDLE, 0));
    let r = handle_command(&mut v, Command::BRAKE, false, "0");
    assert_eq!(r.status, 400);
    assert_eq!(r.message.payload.content, "Command BRAKE not allowed in State IDLE.");
    assert_eq!(v, vehicle(State::IDLE, 0));
}

#[test]
fn handle_command_full_run() {
    let mut v = Vehicle::new();
    let r = handle_command(&mut v, Command::RESET, false, "0");
    assert_eq!(r.status, STATUS_OK);
    assert_eq!(r.status, 200);
    assert_eq!(r.motion, Motion::Clear { mass_kg: 40 });
    assert_eq!(v, vehicle(State::IDLE, 0));
    let r = handle_command(&mut v, Command::PRECHARGE, false, "40");
    assert_eq!(r.status, 200);
    assert_eq!(r.message.payload.content, "Precharge started");
    assert_eq!(r.motion, Motion::Keep);
    assert_eq!(v.state, State::PRECHARGE);
    v.state = State::READY;
    v.voltage_v = 400;
    let r = handle_command(&mut v, Command::START, true, "38.5");
    assert_eq!(r.status, 200);
    assert_eq!(r.message.payload.content, "Booster test started. Mass: 38.5 kg");
    assert_eq!(r.motion, Motion::Launch { velocity_kmh: 4, take_sent_mass: true });
    assert_eq!(v.state, State::RUNNING);
    let r = handle_command(&mut v, Command::BRAKE, false, "38.5");
    assert_eq!(r.status, 200);
    assert_eq!(r.motion, Motion::Keep);
    assert_eq!(v.state, State::BRAKING);
    let r = handle_command(&mut v, Command::BRAKE, false, "38.5");
    assert_eq!(r.status, 400);
    assert_eq!(v.state, State::BRAKING);
}

#[test]
fn status_follows_severity() {
    for s in ALL_STATES {
        for c in [Command::PRECHARGE, Command::START, Command::BRAKE, Command::RESET] {
            for volts in [0, 200, 400] {
                for sent in [true, false] {
                    let mut v = vehicle(s, volts);
                    let r = handle_command(&mut v, c, sent, "12.5");
                    assert_eq!(
                        r.status == 400,
                        r.message.payload.message_type == MessageType::error
                    );
                }
            }
        }
    }
}
