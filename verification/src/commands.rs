//! The operator commands: precharge, start, brake and reset, and the dispatch
//! that answers a command request.
use vstd::prelude::*;
use crate::messages::event_message;
use crate::structs::{
    is_event, Command, Message, MessageType, Motion, State, Vehicle, LAUNCH_VELOCITY_KMH,
    MAX_VOLTAGE_V, RESET_MASS_KG,
};

verus! {

/// HTTP status of an accepted command.
pub const STATUS_OK: u16 = 200;

/// HTTP status of a command that is not valid in the current state.
pub const STATUS_BAD_REQUEST: u16 = 400;

/// Name of a phase, as it is written in messages.
pub open spec fn state_name(s: State) -> Seq<char> {
    match s {
        State::IDLE => "IDLE"@,
        State::PRECHARGE => "PRECHARGE"@,
        State::READY => "READY"@,
        State::RUNNING => "RUNNING"@,
        State::BOOSTING => "BOOSTING"@,
        State::BRAKING => "BRAKING"@,
        State::STOPPED => "STOPPED"@,
    }
}

/// Name of a phase, as it is written in messages.
pub fn state_label(s: State) -> (r: &'static str)
    ensures
        r@ == state_name(s),
{
    match s {
        State::IDLE => "IDLE",
        State::PRECHARGE => "PRECHARGE",
        State::READY => "READY",
        State::RUNNING => "RUNNING",
        State::BOOSTING => "BOOSTING",
        State::BRAKING => "BRAKING",
        State::STOPPED => "STOPPED",
    }
}

/// Whether `c` is valid for the vehicle `v`: a precharge needs an idle,
/// unpowered cart; a start a ready cart at full voltage; a brake a cart that
/// is running or boosting; a reset is always valid.
pub open spec fn command_allowed(v: Vehicle, c: Command) -> bool {
    match c {
        Command::PRECHARGE => v.state == State::IDLE && v.voltage_v == 0,
        Command::START => v.state == State::READY && v.voltage_v >= MAX_VOLTAGE_V,
        Command::BRAKE => v.state == State::RUNNING || v.state == State::BOOSTING,
        Command::RESET => true,
    }
}

/// The vehicle after command `c`: unchanged when the command is refused.
pub open spec fn after_command(v: Vehicle, c: Command) -> Vehicle {
    if !command_allowed(v, c) {
        v
    } else {
        match c {
            Command::PRECHARGE => Vehicle { state: State::PRECHARGE, ..v },
            Command::START => Vehicle { state: State::RUNNING, ..v },
            Command::BRAKE => Vehicle { state: State::BRAKING, ..v },
            Command::RESET => Vehicle { state: State::IDLE, voltage_v: 0 },
        }
    }
}

/// What command `c` does to the cart's kinematic quantities and mass, where
/// `mass_sent` tells whether a mass was sent with the command: an accepted
/// start launches the cart and gives it the sent mass, if any; a reset clears
/// everything and restores the default mass.
pub open spec fn command_motion(v: Vehicle, c: Command, mass_sent: bool) -> Motion {
    if !command_allowed(v, c) {
        Motion::Keep
    } else {
        match c {
            Command::START => Motion::Launch {
                velocity_kmh: LAUNCH_VELOCITY_KMH,
                take_sent_mass: mass_sent,
            },
            Command::RESET => Motion::Clear { mass_kg: RESET_MASS_KG },
            _ => Motion::Keep,
        }
    }
}

/// Severity and text of the message that answers command `c` on vehicle `v`;
/// `mass` is the written form of the mass the cart carries after a start.
pub open spec fn command_reply(v: Vehicle, c: Command, mass: Seq<char>) -> (MessageType, Seq<char>) {
    match c {
        Command::PRECHARGE => if command_allowed(v, c) {
            (MessageType::info, "Precharge started"@)
        } else {
            (MessageType::error, "Could not precharge, voltage>0 or not in IDLE state."@)
        },
        Command::START => if command_allowed(v, c) {
            (MessageType::info, "Booster test started. Mass: "@ + mass + " kg"@)
        } else {
            (MessageType::error, "Could not start, voltage<400 or not in READY state."@)
        },
        Command::BRAKE => if command_allowed(v, c) {
            (MessageType::info, "Braking initiated."@)
        } else {
            (
                MessageType::error,
                "Command BRAKE not allowed in State "@ + state_name(v.state) + "."@,
            )
        },
        Command::RESET => (MessageType::info, "System reset."@),
    }
}

/// HTTP status that answers command `c` on vehicle `v`.
pub open spec fn command_status(v: Vehicle, c: Command) -> u16 {
    if command_allowed(v, c) {
        STATUS_OK
    } else {
        STATUS_BAD_REQUEST
    }
}

/// Begins a precharge of an idle, unpowered cart; refuses otherwise.
pub fn precharge_command(vehicle: &mut Vehicle) -> (m: Message)
    ensures
        *final(vehicle) == after_command(*old(vehicle), Command::PRECHARGE),
        command_allowed(*old(vehicle), Command::PRECHARGE) ==> final(vehicle).state
            == State::PRECHARGE,
        is_event(
            m,
            command_reply(*old(vehicle), Command::PRECHARGE, Seq::empty()).0,
            command_reply(*old(vehicle), Command::PRECHARGE, Seq::empty()).1,
        ),
{
    if vehicle.state != State::IDLE || vehicle.voltage_v != 0 {
        return event_message(
            MessageType::error,
            String::from_str("Could not precharge, voltage>0 or not in IDLE state."),
        );
    }
    vehicle.state = State::PRECHARGE;
    event_message(MessageType::info, String::from_str("Precharge started"))
}

/// Launches a ready cart at full voltage; refuses otherwise. `mass_sent`
/// tells whether a mass was sent with the command, and `mass` is the written
/// form of the mass the cart carries after the start: the one sent, or else the
/// one it had. On success the cart is running, the returned motion sets its
/// velocity and takes the sent mass, and the message quotes the mass.
pub fn start_command(vehicle: &mut Vehicle, mass_sent: bool, mass: &str) -> (r: (Message, Motion))
    ensures
        *final(vehicle) == after_command(*old(vehicle), Command::START),
        command_allowed(*old(vehicle), Command::START) ==> final(vehicle).state == State::RUNNING,
        r.1 == command_motion(*old(vehicle), Command::START, mass_sent),
        is_event(
            r.0,
            command_reply(*old(vehicle), Command::START, mass@).0,
            command_reply(*old(vehicle), Command::START, mass@).1,
        ),
{
    if vehicle.state != State::READY || vehicle.voltage_v < MAX_VOLTAGE_V {
        let m = event_message(
            MessageType::error,
            String::from_str("Could not start, voltage<400 or not in READY state."),
        );
        return (m, Motion::Keep);
    }
    vehicle.state = State::RUNNING;
    let text = String::from_str("Booster test started. Mass: ").concat(mass).concat(" kg");
    let m = event_message(MessageType::info, text);
    (m, Motion::Launch { velocity_kmh: LAUNCH_VELOCITY_KMH, take_sent_mass: mass_sent })
}

/// Engages the brakes of a running or boosting cart; refuses otherwise,
/// naming the current phase.
pub fn brake_command(vehicle: &mut Vehicle) -> (m: Message)
    ensures
        *final(vehicle) == after_command(*old(vehicle), Command::BRAKE),
        command_allowed(*old(vehicle), Command::BRAKE) ==> final(vehicle).state == State::BRAKING,
        is_event(
            m,
            command_reply(*old(vehicle), Command::BRAKE, Seq::empty()).0,
            command_reply(*old(vehicle), Command::BRAKE, Seq::empty()).1,
        ),
{
    if vehicle.state != State::RUNNING && vehicle.state != State::BOOSTING {
        let text = String::from_str("Command BRAKE not allowed in State ").concat(
            state_label(vehicle.state),
        ).concat(".");
        return event_message(MessageType::error, text);
    }
    vehicle.state = State::BRAKING;
    event_message(MessageType::info, String::from_str("Braking initiated."))
}

/// Returns the bench to its idle state from any state: unpowered, and, by the
/// returned motion, with the default mass and all kinematic quantities cleared.
pub fn reset_command(vehicle: &mut Vehicle) -> (r: (Message, Motion))
    ensures
        *final(vehicle) == after_command(*old(vehicle), Command::RESET),
        *final(vehicle) == (Vehicle { state: State::IDLE, voltage_v: 0 }),
        r.1 == (Motion::Clear { mass_kg: RESET_MASS_KG }),
        is_event(r.0, MessageType::info, "System reset."@),
{
    vehicle.state = State::IDLE;
    vehicle.voltage_v = 0;
    let m = event_message(MessageType::info, String::from_str("System reset."));
    (m, Motion::Clear { mass_kg: RESET_MASS_KG })
}

/// The answer to a command request.
pub struct CommandReply {
    /// HTTP status: `STATUS_OK`, or `STATUS_BAD_REQUEST` when the command is
    /// not valid in the current state.
    pub status: u16,
    /// The event message to broadcast.
    pub message: Message,
    /// What the command does to the kinematic quantities and the mass.
    pub motion: Motion,
}

/// Carries out `command` on `vehicle`. For a start, `mass_sent` tells whether
/// a mass was sent with the command and `mass` is the written form of the
/// mass the cart carries after it (the one sent, or else the one it had); other
/// commands ignore both. A command that is not valid in the current state is
/// answered with an error message and status 400 and changes nothing; any
/// other is answered with status 200.
pub fn handle_command(vehicle: &mut Vehicle, command: Command, mass_sent: bool, mass: &str) -> (r:
    CommandReply)
    ensures
        *final(vehicle) == after_command(*old(vehicle), command),
        r.motion == command_motion(*old(vehicle), command, mass_sent),
        r.status == command_status(*old(vehicle), command),
        is_event(
            r.message,
            command_reply(*old(vehicle), command, mass@).0,
            command_reply(*old(vehicle), command, mass@).1,
        ),
        (r.status == STATUS_BAD_REQUEST) == (r.message.payload.message_type == MessageType::error),
{
    let (message, motion) = match command {
        Command::PRECHARGE => (precharge_command(vehicle), Motion::Keep),
        Command::START => start_command(vehicle, mass_sent, mass),
        Command::BRAKE => (brake_command(vehicle), Motion::Keep),
        Command::RESET => reset_command(vehicle),
    };
    let status = if message.payload.message_type == MessageType::error {
        STATUS_BAD_REQUEST
    } else {
        STATUS_OK
    };
    CommandReply { status, message, motion }
}

} // verus!
