//! Properties of the control logic that span commands and ticks.
use vstd::prelude::*;
use crate::commands::{
    after_command, command_allowed, command_motion, command_reply, command_status,
    STATUS_BAD_REQUEST, STATUS_OK,
};
use crate::commands::state_name;
use crate::messages::notice_spec;
use crate::physics::tick_spec;
use crate::structs::{
    Command, MessageType, Motion, Notice, State, Vehicle, Zone, BOOST_TARGET_KMH, BRAKE_FORCE_N,
    LAUNCH_VELOCITY_KMH, MAX_VOLTAGE_V, RESET_MASS_KG, TRACK_END_M, VOLTAGE_STEP_V,
};

verus! {

/// The vehicle after a tick for each of `readings` in turn, each reading
/// being where the cart stands and whether it is at rest.
pub open spec fn run_ticks(v: Vehicle, readings: Seq<(Zone, bool)>) -> Vehicle
    decreases readings.len(),
{
    if readings.len() == 0 {
        v
    } else {
        let next = tick_spec(v, readings[0].0, readings[0].1).0;
        run_ticks(next, readings.drop_first())
    }
}

/// A command that is not valid in the current state changes nothing, moves
/// nothing, and is answered with an error message and status 400; a valid one
/// is answered with status 200 and a message that is not an error.
pub proof fn refused_command_changes_nothing(
    v: Vehicle,
    c: Command,
    mass_sent: bool,
    mass: Seq<char>,
)
    ensures
        !command_allowed(v, c) ==> {
            &&& after_command(v, c) == v
            &&& command_motion(v, c, mass_sent) == Motion::Keep
            &&& command_reply(v, c, mass).0 == MessageType::error
            &&& command_status(v, c) == STATUS_BAD_REQUEST
        },
        command_allowed(v, c) ==> {
            &&& command_reply(v, c, mass).0 != MessageType::error
            &&& command_status(v, c) == STATUS_OK
        },
{
}

/// Every command keeps the vehicle consistent, so the voltage stays at most
/// `MAX_VOLTAGE_V`.
pub proof fn command_keeps_consistency(v: Vehicle, c: Command)
    requires
        v.consistent(),
    ensures
        after_command(v, c).consistent(),
        after_command(v, c).voltage_v <= MAX_VOLTAGE_V,
{
}

/// Every tick keeps the vehicle consistent, whatever the readings, so the
/// voltage stays at most `MAX_VOLTAGE_V`.
pub proof fn tick_keeps_consistency(v: Vehicle, zone: Zone, at_rest: bool)
    requires
        v.consistent(),
    ensures
        tick_spec(v, zone, at_rest).0.consistent(),
        tick_spec(v, zone, at_rest).0.voltage_v <= MAX_VOLTAGE_V,
{
}

/// On a consistent vehicle only the phase can refuse a start: a ready cart is
/// always at full voltage.
pub proof fn start_needs_only_ready(v: Vehicle)
    requires
        v.consistent(),
    ensures
        command_allowed(v, Command::START) <==> v.state == State::READY,
{
}

/// An accepted start, whatever mass comes with it, launches the cart, takes
/// the sent mass if there is one, and quotes the mass it then carries.
pub proof fn start_takes_sent_mass(v: Vehicle, mass_sent: bool, mass: Seq<char>)
    requires
        command_allowed(v, Command::START),
    ensures
        command_motion(v, Command::START, mass_sent) == (Motion::Launch {
            velocity_kmh: LAUNCH_VELOCITY_KMH,
            take_sent_mass: mass_sent,
        }),
        command_reply(v, Command::START, mass) == (
            MessageType::info,
            "Booster test started. Mass: "@ + mass + " kg"@,
        ),
        command_status(v, Command::START) == STATUS_OK,
{
}

/// A reset succeeds from every state and always gives the same vehicle: idle,
/// unpowered, with the default mass. Resetting twice is resetting once.
pub proof fn reset_from_anywhere(v: Vehicle, w: Vehicle, mass_sent: bool)
    ensures
        command_allowed(v, Command::RESET),
        after_command(v, Command::RESET) == after_command(w, Command::RESET),
        after_command(v, Command::RESET) == (Vehicle { state: State::IDLE, voltage_v: 0 }),
        command_motion(v, Command::RESET, mass_sent) == (Motion::Clear { mass_kg: RESET_MASS_KG }),
        after_command(after_command(v, Command::RESET), Command::RESET) == after_command(
            v,
            Command::RESET,
        ),
        after_command(v, Command::RESET).consistent(),
{
}

/// A stopped cart stays stopped, whatever the ticks read, until a reset: no
/// other command is valid on it.
pub proof fn stopped_until_reset(
    v: Vehicle,
    zone: Zone,
    at_rest: bool,
    c: Command,
)
    requires
        v.state == State::STOPPED,
    ensures
        tick_spec(v, zone, at_rest).0.state == State::STOPPED,
        c != Command::RESET ==> !command_allowed(v, c),
{
}

/// An event is announced only by a tick that changes the phase.
pub proof fn notices_mark_phase_changes(v: Vehicle, zone: Zone, at_rest: bool)
    ensures
        tick_spec(v, zone, at_rest).2 is Some ==> tick_spec(v, zone, at_rest).0.state != v.state,
{
}

/// A precharge that has reached `v.voltage_v` volts rises by one step per
/// tick, whatever the ticks read, and stays a precharge while the voltage is
/// below full.
pub proof fn precharge_rises(v: Vehicle, readings: Seq<(Zone, bool)>)
    requires
        v.state == State::PRECHARGE,
        v.voltage_v + VOLTAGE_STEP_V * readings.len() < MAX_VOLTAGE_V,
    ensures
        run_ticks(v, readings) == (Vehicle {
            voltage_v: (v.voltage_v + VOLTAGE_STEP_V * readings.len()) as u32,
            ..v
        }),
    decreases readings.len(),
{
    if readings.len() > 0 {
        let next = tick_spec(v, readings[0].0, readings[0].1).0;
        assert(next == Vehicle { voltage_v: (v.voltage_v + VOLTAGE_STEP_V) as u32, ..v });
        precharge_rises(next, readings.drop_first());
    }
}

/// A precharge begun from an unpowered cart makes it ready at full voltage
/// after exactly `MAX_VOLTAGE_V / VOLTAGE_STEP_V` ticks, whatever they read,
/// and not before.
pub proof fn precharge_completes(v: Vehicle, readings: Seq<(Zone, bool)>)
    requires
        v.state == State::PRECHARGE,
        v.voltage_v == 0,
    ensures
        readings.len() < MAX_VOLTAGE_V / VOLTAGE_STEP_V ==> run_ticks(v, readings).state
            == State::PRECHARGE,
        readings.len() == MAX_VOLTAGE_V / VOLTAGE_STEP_V ==> run_ticks(v, readings) == (Vehicle {
            state: State::READY,
            voltage_v: MAX_VOLTAGE_V,
            ..v
        }),
{
    if readings.len() < MAX_VOLTAGE_V / VOLTAGE_STEP_V {
        precharge_rises(v, readings);
    } else if readings.len() == MAX_VOLTAGE_V / VOLTAGE_STEP_V {
        let n = (readings.len() - 1) as int;
        let first = readings.take(n);
        let last = readings.skip(n);
        precharge_rises(v, first);
        run_ticks_split(v, readings, n);
        let mid = run_ticks(v, first);
        assert(mid.voltage_v == 375);
        assert(last.len() == 1);
        let done = tick_spec(mid, last[0].0, last[0].1).0;
        assert(done == Vehicle { state: State::READY, voltage_v: MAX_VOLTAGE_V, ..v });
        assert(run_ticks(done, last.drop_first()) == done);
    }
}

/// Running ticks over a sequence of readings is running them over its first
/// `n` readings and then over the rest.
pub proof fn run_ticks_split(v: Vehicle, readings: Seq<(Zone, bool)>, n: int)
    requires
        0 <= n <= readings.len(),
    ensures
        run_ticks(v, readings) == run_ticks(run_ticks(v, readings.take(n)), readings.skip(n)),
    decreases n,
{
    if n > 0 {
        let next = tick_spec(v, readings[0].0, readings[0].1).0;
        let rest = readings.drop_first();
        run_ticks_split(next, rest, n - 1);
        assert(readings.take(n).drop_first() =~= rest.take(n - 1));
        assert(readings.take(n)[0] == readings[0]);
        assert(rest.skip(n - 1) =~= readings.skip(n));
    } else {
        assert(readings.take(0) =~= Seq::<(Zone, bool)>::empty());
        assert(readings.skip(0) =~= readings);
    }
}

// What each command does, stated over the phase and voltage it is given.

/// A precharge is accepted exactly on an idle, unpowered cart, which it puts
/// into PRECHARGE at 0 V with status 200 and "Precharge started"; on any other
/// cart it changes nothing and is answered with status 400 and its error
/// text. It never moves the cart.
pub proof fn precharge_only_from_idle_unpowered(v: Vehicle, mass_sent: bool, mass: Seq<char>)
    ensures
        command_motion(v, Command::PRECHARGE, mass_sent) == Motion::Keep,
        v.state == State::IDLE && v.voltage_v == 0 ==> {
            &&& after_command(v, Command::PRECHARGE) == (Vehicle {
                state: State::PRECHARGE,
                voltage_v: 0,
            })
            &&& command_status(v, Command::PRECHARGE) == 200
            &&& command_reply(v, Command::PRECHARGE, mass) == (
                MessageType::info,
                "Precharge started"@,
            )
        },
        !(v.state == State::IDLE && v.voltage_v == 0) ==> {
            &&& after_command(v, Command::PRECHARGE) == v
            &&& command_status(v, Command::PRECHARGE) == 400
            &&& command_reply(v, Command::PRECHARGE, mass) == (
                MessageType::error,
                "Could not precharge, voltage>0 or not in IDLE state."@,
            )
        },
{
}

/// A start is accepted exactly on a READY cart at full voltage or more, which
/// it puts into RUNNING at the same voltage with status 200, launching it at
/// `LAUNCH_VELOCITY_KMH` with the sent mass; on any other cart it changes and
/// moves nothing and is answered with status 400 and its error text.
pub proof fn start_only_from_ready(v: Vehicle, mass_sent: bool, mass: Seq<char>)
    ensures
        v.state == State::READY && v.voltage_v >= MAX_VOLTAGE_V ==> {
            &&& after_command(v, Command::START) == (Vehicle {
                state: State::RUNNING,
                voltage_v: v.voltage_v,
            })
            &&& command_status(v, Command::START) == 200
            &&& command_motion(v, Command::START, mass_sent) == (Motion::Launch {
                velocity_kmh: 4,
                take_sent_mass: mass_sent,
            })
            &&& command_reply(v, Command::START, mass) == (
                MessageType::info,
                "Booster test started. Mass: "@ + mass + " kg"@,
            )
        },
        !(v.state == State::READY && v.voltage_v >= MAX_VOLTAGE_V) ==> {
            &&& after_command(v, Command::START) == v
            &&& command_status(v, Command::START) == 400
            &&& command_motion(v, Command::START, mass_sent) == Motion::Keep
            &&& command_reply(v, Command::START, mass) == (
                MessageType::error,
                "Could not start, voltage<400 or not in READY state."@,
            )
        },
{
}

/// A brake is accepted exactly on a RUNNING or BOOSTING cart, which it puts
/// into BRAKING at the same voltage with status 200 and "Braking initiated.";
/// on any other cart it changes nothing and is answered with status 400 and
/// a text naming the phase. It never touches the kinematic quantities: the
/// brakes act tick by tick.
pub proof fn brake_only_while_moving(v: Vehicle, mass_sent: bool, mass: Seq<char>)
    ensures
        command_motion(v, Command::BRAKE, mass_sent) == Motion::Keep,
        v.state == State::RUNNING || v.state == State::BOOSTING ==> {
            &&& after_command(v, Command::BRAKE) == (Vehicle {
                state: State::BRAKING,
                voltage_v: v.voltage_v,
            })
            &&& command_status(v, Command::BRAKE) == 200
            &&& command_reply(v, Command::BRAKE, mass) == (MessageType::info, "Braking initiated."@)
        },
        !(v.state == State::RUNNING || v.state == State::BOOSTING) ==> {
            &&& after_command(v, Command::BRAKE) == v
            &&& command_status(v, Command::BRAKE) == 400
            &&& command_reply(v, Command::BRAKE, mass) == (
                MessageType::error,
                "Command BRAKE not allowed in State "@ + state_name(v.state) + "."@,
            )
        },
{
}

/// A reset is accepted on every cart, with status 200 and "System reset.":
/// the cart is IDLE at 0 V, its kinematic quantities are cleared and its mass
/// is `RESET_MASS_KG`.
pub proof fn reset_always_accepted(v: Vehicle, mass_sent: bool, mass: Seq<char>)
    ensures
        after_command(v, Command::RESET) == (Vehicle { state: State::IDLE, voltage_v: 0 }),
        command_status(v, Command::RESET) == 200,
        command_motion(v, Command::RESET, mass_sent) == (Motion::Clear { mass_kg: 40 }),
        command_reply(v, Command::RESET, mass) == (MessageType::info, "System reset."@),
{
}

/// No command other than a reset changes the voltage, and only a start or a
/// reset touches the kinematic quantities or the mass.
pub proof fn commands_change_only_the_phase(v: Vehicle, c: Command, mass_sent: bool)
    ensures
        c != Command::RESET ==> after_command(v, c).voltage_v == v.voltage_v,
        c == Command::PRECHARGE || c == Command::BRAKE ==> command_motion(v, c, mass_sent)
            == Motion::Keep,
{
}

/// Phases are named in messages by their own names.
pub proof fn phase_names()
    ensures
        state_name(State::IDLE) == "IDLE"@,
        state_name(State::PRECHARGE) == "PRECHARGE"@,
        state_name(State::READY) == "READY"@,
        state_name(State::RUNNING) == "RUNNING"@,
        state_name(State::BOOSTING) == "BOOSTING"@,
        state_name(State::BRAKING) == "BRAKING"@,
        state_name(State::STOPPED) == "STOPPED"@,
{
}

// What each tick does, stated over the phase, voltage and readings it is given.

/// A tick on an idle or ready cart changes nothing, moves nothing and
/// announces nothing, whatever the readings.
pub proof fn idle_or_ready_tick_is_still(v: Vehicle, zone: Zone, at_rest: bool)
    requires
        v.state == State::IDLE || v.state == State::READY,
    ensures
        tick_spec(v, zone, at_rest) == (v, Motion::Keep, None::<Notice>),
{
}

/// A precharge tick adds `VOLTAGE_STEP_V` volts while that stays below
/// `MAX_VOLTAGE_V`; otherwise it makes the cart READY at exactly
/// `MAX_VOLTAGE_V` and announces the completed precharge. It never moves the
/// cart.
pub proof fn precharge_tick_steps_voltage(v: Vehicle, zone: Zone, at_rest: bool)
    requires
        v.state == State::PRECHARGE,
    ensures
        v.voltage_v + 25 < 400 ==> tick_spec(v, zone, at_rest) == (
            Vehicle { state: State::PRECHARGE, voltage_v: (v.voltage_v + 25) as u32 },
            Motion::Keep,
            None::<Notice>,
        ),
        v.voltage_v + 25 >= 400 ==> tick_spec(v, zone, at_rest) == (
            Vehicle { state: State::READY, voltage_v: 400 },
            Motion::Keep,
            Some(Notice::PrechargeDone),
        ),
{
}

/// A running cart starts boosting, announced, when it is in the booster
/// section; starts braking, unannounced, at the stopper; and otherwise rolls
/// on at constant velocity. The voltage is kept.
pub proof fn running_tick(v: Vehicle, zone: Zone, at_rest: bool)
    requires
        v.state == State::RUNNING,
    ensures
        zone == Zone::Booster ==> tick_spec(v, zone, at_rest) == (
            Vehicle { state: State::BOOSTING, voltage_v: v.voltage_v },
            Motion::Keep,
            Some(Notice::BoostEntered),
        ),
        zone == Zone::Stopper ==> tick_spec(v, zone, at_rest) == (
            Vehicle { state: State::BRAKING, voltage_v: v.voltage_v },
            Motion::Keep,
            None::<Notice>,
        ),
        zone == Zone::Approach || zone == Zone::Track ==> tick_spec(v, zone, at_rest) == (
            v,
            Motion::Cruise,
            None::<Notice>,
        ),
{
}

/// A boosting cart past the booster section runs on at `BOOST_TARGET_KMH`
/// with the coil off, announcing the completed boost; before its end the
/// booster accelerates it towards `BOOST_TARGET_KMH`.
pub proof fn boosting_tick(v: Vehicle, zone: Zone, at_rest: bool)
    requires
        v.state == State::BOOSTING,
    ensures
        zone == Zone::Track || zone == Zone::Stopper ==> tick_spec(v, zone, at_rest) == (
            Vehicle { state: State::RUNNING, voltage_v: v.voltage_v },
            Motion::EndBoost { velocity_kmh: 25 },
            Some(Notice::BoostSuccess),
        ),
        zone == Zone::Approach || zone == Zone::Booster ==> tick_spec(v, zone, at_rest) == (
            v,
            Motion::Boost { target_kmh: 25 },
            None::<Notice>,
        ),
{
}

/// A braking cart at the stopper is stopped there, at `TRACK_END_M` with zero
/// velocity, and the crash is announced as critical, whether or not it was
/// still moving; elsewhere it stops with a success notice once at rest, and
/// is otherwise decelerated by the brake force.
pub proof fn braking_tick(v: Vehicle, zone: Zone, at_rest: bool)
    requires
        v.state == State::BRAKING,
    ensures
        zone == Zone::Stopper ==> tick_spec(v, zone, at_rest) == (
            Vehicle { state: State::STOPPED, voltage_v: v.voltage_v },
            Motion::HitStopper { position_m: 50 },
            Some(Notice::StoppedCritical),
        ),
        zone != Zone::Stopper && at_rest ==> tick_spec(v, zone, at_rest) == (
            Vehicle { state: State::STOPPED, voltage_v: v.voltage_v },
            Motion::Halt,
            Some(Notice::StoppedSuccess),
        ),
        zone != Zone::Stopper && !at_rest ==> tick_spec(v, zone, at_rest) == (
            v,
            Motion::Brake { force_n: 196 },
            None::<Notice>,
        ),
{
}

/// A stopped cart stays stopped and is powered down: its voltage drops to 0
/// and its velocity, acceleration and current to 0, without any notice.
pub proof fn stopped_tick_powers_down(v: Vehicle, zone: Zone, at_rest: bool)
    requires
        v.state == State::STOPPED,
    ensures
        tick_spec(v, zone, at_rest) == (
            Vehicle { state: State::STOPPED, voltage_v: 0 },
            Motion::PowerDown,
            None::<Notice>,
        ),
{
}

/// Nothing rolls on through the stopper: at the stopper no tick lets the cart
/// cruise, boost or brake further, and a cart that was moving there is either
/// stopped or made to brake.
pub proof fn nothing_passes_the_stopper(v: Vehicle, at_rest: bool)
    ensures
        !(tick_spec(v, Zone::Stopper, at_rest).1 is Cruise),
        !(tick_spec(v, Zone::Stopper, at_rest).1 is Boost),
        !(tick_spec(v, Zone::Stopper, at_rest).1 is Brake),
        v.state == State::RUNNING ==> tick_spec(v, Zone::Stopper, at_rest).0.state
            == State::BRAKING,
        v.state == State::BRAKING ==> tick_spec(v, Zone::Stopper, at_rest).0.state
            == State::STOPPED,
{
}

/// The voltage changes only while precharging or on a stopped cart.
pub proof fn tick_voltage_changes_only_in_precharge_or_stop(v: Vehicle, zone: Zone, at_rest: bool)
    requires
        v.state != State::PRECHARGE && v.state != State::STOPPED,
    ensures
        tick_spec(v, zone, at_rest).0.voltage_v == v.voltage_v,
{
}

// What each notice says.

/// The message of each notice, for any written position `p` and velocity
/// `s`: a completed precharge and an entered booster are announced by fixed
/// texts; a completed boost quotes the velocity; a stop before the stopper is
/// a success and a stop at the stopper is critical, both quoting the position.
/// Stop messages do not depend on the velocity, nor the boost message on the
/// position.
pub proof fn notice_texts(p: Seq<char>, s: Seq<char>, p2: Seq<char>, s2: Seq<char>)
    ensures
        notice_spec(Notice::PrechargeDone, p, s) == (
            MessageType::success,
            "V = 400V precharge completed successfully"@,
        ),
        notice_spec(Notice::BoostEntered, p, s) == (MessageType::info, "Booster section entered"@),
        notice_spec(Notice::BoostSuccess, p, s) == (
            MessageType::success,
            "Boost completed. Velocity: "@ + s,
        ),
        notice_spec(Notice::StoppedSuccess, p, s) == (
            MessageType::success,
            "Cart stopped at s = "@ + p + " m"@,
        ),
        notice_spec(Notice::StoppedCritical, p, s) == (
            MessageType::critical,
            "Cart reached mechanical stopper at s = "@ + p + " m"@,
        ),
        notice_spec(Notice::StoppedCritical, p, s) == notice_spec(Notice::StoppedCritical, p, s2),
        notice_spec(Notice::StoppedSuccess, p, s) == notice_spec(Notice::StoppedSuccess, p, s2),
        notice_spec(Notice::BoostSuccess, p, s) == notice_spec(Notice::BoostSuccess, p2, s),
{
}

} // verus!
