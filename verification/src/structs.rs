//! The data model of the test bench: the cart's control quantities, the phases
//! of a test run, operator commands, and the event messages sent to clients.
use vstd::prelude::*;

verus! {

/// Highest link voltage, reached at the end of a precharge (volts).
pub const MAX_VOLTAGE_V: u32 = 400;

/// Voltage added by one tick while precharging (volts).
pub const VOLTAGE_STEP_V: u32 = 25;

/// Mass the cart is given by a reset (kilograms).
pub const RESET_MASS_KG: u32 = 40;

/// Velocity the cart is launched with by a start (km/h).
pub const LAUNCH_VELOCITY_KMH: u32 = 4;

/// Velocity the booster brings the cart to (km/h).
pub const BOOST_TARGET_KMH: u32 = 25;

/// Position where the booster section begins (metres).
pub const BOOST_START_M: u32 = 2;

/// Position where the booster section ends (metres).
pub const BOOST_END_M: u32 = 4;

/// Length of the track, where the mechanical stopper stands (metres).
pub const TRACK_END_M: u32 = 50;

/// Peak coil current of the booster (amperes).
pub const PEAK_CURRENT_A: u32 = 200;

/// Force of the brakes (newtons).
pub const BRAKE_FORCE_N: u32 = 196;

/// Wall-clock period of one simulation tick (milliseconds).
pub const TICK_PERIOD_MS: u32 = 250;

/// Simulated time that passes in one tick (milliseconds); the simulation
/// runs five times slower than real time.
pub const TICK_SIM_MS: u32 = 50;

/// Phase of a test run of the booster cart.
#[allow(non_camel_case_types)]
#[derive(PartialEq, Eq, Structural, Clone, Copy, Debug)]
pub enum State {
    IDLE,
    PRECHARGE,
    READY,
    RUNNING,
    BOOSTING,
    BRAKING,
    STOPPED,
}

/// Channel of a frame sent to the clients.
#[allow(non_camel_case_types)]
#[derive(PartialEq, Eq, Structural, Clone, Copy, Debug)]
pub enum Topic {
    message,
    data,
}

/// Severity of an event message.
#[allow(non_camel_case_types)]
#[derive(PartialEq, Eq, Structural, Clone, Copy, Debug)]
pub enum MessageType {
    info,
    success,
    error,
    critical,
}

/// Operator command received over the command API.
#[derive(PartialEq, Eq, Structural, Clone, Copy, Debug)]
pub enum Command {
    PRECHARGE,
    START,
    BRAKE,
    RESET,
}

/// Body of an event message.
pub struct PayloadMessage {
    pub message_type: MessageType,
    pub content: String,
}

/// An event message, as broadcast to the clients.
pub struct Message {
    pub topic: Topic,
    pub payload: PayloadMessage,
}

/// The part of the cart's telemetry that the control logic reads and writes:
/// the phase of the run and the link voltage. Position, velocity,
/// acceleration, coil current and mass are real-valued and kept by the
/// simulation loop around this library; `Motion` tells it how a step changes
/// them.
#[derive(PartialEq, Eq, Structural, Clone, Copy, Debug)]
pub struct Vehicle {
    pub state: State,
    pub voltage_v: u32,
}

impl Vehicle {
    /// The vehicle the bench starts with: idle and unpowered.
    pub fn new() -> (v: Vehicle)
        ensures
            v == (Vehicle { state: State::IDLE, voltage_v: 0 }),
            v.consistent(),
    {
        Vehicle { state: State::IDLE, voltage_v: 0 }
    }

    /// The link voltage agrees with the phase of the run: unpowered when idle,
    /// charging in steps below full voltage during a precharge, at full voltage
    /// from ready until stopped, and at full voltage or discharged when
    /// stopped. In particular the voltage never exceeds `MAX_VOLTAGE_V`.
    pub open spec fn consistent(self) -> bool {
        match self.state {
            State::IDLE => self.voltage_v == 0,
            State::PRECHARGE => self.voltage_v < MAX_VOLTAGE_V && self.voltage_v % VOLTAGE_STEP_V
                == 0,
            State::READY | State::RUNNING | State::BOOSTING | State::BRAKING => self.voltage_v
                == MAX_VOLTAGE_V,
            State::STOPPED => self.voltage_v == MAX_VOLTAGE_V || self.voltage_v == 0,
        }
    }
}

/// What a step of the control logic does to the real-valued kinematic
/// quantities of the cart (position, velocity, acceleration, coil current).
#[derive(PartialEq, Eq, Structural, Clone, Copy, Debug)]
pub enum Motion {
    /// They are left as they are.
    Keep,
    /// The cart is launched: the velocity becomes `velocity_kmh`, and when
    /// `take_sent_mass` holds the mass becomes the one sent with the command.
    Launch { velocity_kmh: u32, take_sent_mass: bool },
    /// Everything is cleared: position, velocity, acceleration and current
    /// become 0, and the mass becomes `mass_kg`.
    Clear { mass_kg: u32 },
    /// The cart rolls on at constant velocity for one tick.
    Cruise,
    /// The booster accelerates the cart for one tick, towards `target_kmh`.
    Boost { target_kmh: u32 },
    /// The booster is left: current and acceleration become 0, the velocity `velocity_kmh`.
    EndBoost { velocity_kmh: u32 },
    /// The brakes decelerate the cart for one tick with `force_n` newtons.
    Brake { force_n: u32 },
    /// The cart hits the stopper: the position becomes `position_m`, the velocity 0.
    HitStopper { position_m: u32 },
    /// The cart has come to rest: the velocity becomes 0.
    Halt,
    /// The cart is powered down: velocity, acceleration and current become 0.
    PowerDown,
}

/// Where the cart stands on the track, as read before a tick.
#[derive(PartialEq, Eq, Structural, Clone, Copy, Debug)]
pub enum Zone {
    /// Before the booster section: position below `BOOST_START_M` (or not a number).
    Approach,
    /// Inside the booster section: `BOOST_START_M` <= position < `BOOST_END_M`.
    Booster,
    /// Past the booster: `BOOST_END_M` <= position < `TRACK_END_M`.
    Track,
    /// At the stopper: position >= `TRACK_END_M`.
    Stopper,
}

/// An event that a tick announces to the clients.
#[derive(PartialEq, Eq, Structural, Clone, Copy, Debug)]
pub enum Notice {
    PrechargeDone,
    BoostEntered,
    BoostSuccess,
    StoppedCritical,
    StoppedSuccess,
}

/// A message on the event channel with the given severity and text.
pub open spec fn is_event(m: Message, kind: MessageType, text: Seq<char>) -> bool {
    &&& m.topic == Topic::message
    &&& m.payload.message_type == kind
    &&& m.payload.content@ == text
}

} // verus!
