use booster_emulator::commands::handle_command;
use booster_emulator::physics::tick_physics;
use booster_emulator::structs::{Command, Notice, State, Vehicle, Zone};

fn consistent(v: &Vehicle) -> bool {
    match v.state {
        State::IDLE => v.voltage_v == 0,
        State::PRECHARGE => v.voltage_v < 400 && v.voltage_v % 25 == 0,
        State::READY | State::RUNNING | State::BOOSTING | State::BRAKING => v.voltage_v == 400,
        State::STOPPED => v.voltage_v == 400 || v.voltage_v == 0,
    }
}

#[test]
fn whole_test_run_stays_consistent() {
    let mut v = Vehicle::new();
    assert!(consistent(&v));
    handle_command(&mut v, Command::RESET, false, "0");
    assert!(consistent(&v));
    assert_eq!(handle_command(&mut v, Command::PRECHARGE, false, "0").status, 200);
    let mut ticks = 0;
    while v.state == State::PRECHARGE {
        tick_physics(&mut v, Zone::Approach, true);
        ticks += 1;
        assert!(consistent(&v));
    }
    assert_eq!(ticks, 16);
    assert_eq!(v.state, State::READY);
    assert_eq!(handle_command(&mut v, Command::START, true, "40").status, 200);
    assert!(consistent(&v));
    let readings = [
        (Zone::Approach, false, State::RUNNING, None),
        (Zone::Booster, false, State::BOOSTING, Some(Notice::BoostEntered)),
        (Zone::Booster, false, State::BOOSTING, None),
        (Zone::Track, false, State::RUNNING, Some(Notice::BoostSuccess)),
        (Zone::Track, false, State::RUNNING, None),
    ];
    for (zone, rest, expected, notice) in readings {
        let t = tick_physics(&mut v, zone, rest);
        assert_eq!(v.state, expected);
        assert_eq!(t.notice, notice);
        assert!(consistent(&v));
    }
    assert_eq!(handle_command(&mut v, Command::BRAKE, false, "0").status, 200);
    let t = tick_physics(&mut v, Zone::Track, true);
    assert_eq!(t.notice, Some(Notice::StoppedSuccess));
    assert_eq!(v.state, State::STOPPED);
    assert!(consistent(&v));
    for c in [Command::PRECHARGE, Command::START, Command::BRAKE] {
        assert_eq!(handle_command(&mut v, c, false, "0").status, 400);
        tick_physics(&mut v, Zone::Stopper, false);
        assert_eq!(v.state, State::STOPPED);
        assert!(consistent(&v));
    }
    assert_eq!(v.voltage_v, 0);
    assert_eq!(handle_command(&mut v, Command::RESET, false, "0").status, 200);
    assert_eq!(v, Vehicle { state: State::IDLE, voltage_v: 0 });
}

#[test]
fn ready_cart_can_always_start() {
    let mut v = Vehicle { state: State::PRECHARGE, voltage_v: 0 };
    while v.state == State::PRECHARGE {
        tick_physics(&mut v, Zone::Booster, false);
    }
    assert!(consistent(&v));
    assert_eq!(handle_command(&mut v, Command::START, true, "40").status, 200);
}
