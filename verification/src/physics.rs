//! The decisions of one simulation tick.
//!
//! Every tick the simulation loop reads where the cart stands (`Zone`) and
//! whether it has come to rest, and asks `tick_physics` what happens: the new
//! phase and voltage, what to do with the real-valued kinematic quantities,
//! and which event to announce. The loop publishes the telemetry frame of every
//! tick.
use vstd::prelude::*;
use crate::structs::{
    Motion, Notice, State, Vehicle, Zone, BOOST_TARGET_KMH, BRAKE_FORCE_N, MAX_VOLTAGE_V,
    TRACK_END_M, VOLTAGE_STEP_V,
};

verus! {

/// What a tick does besides updating the vehicle's control quantities.
pub struct Tick {
    /// What happens to position, velocity, acceleration and coil current.
    pub motion: Motion,
    /// The event to announce, if any.
    pub notice: Option<Notice>,
}

/// The outcome of one tick on vehicle `v` when the cart stands in `zone` and
/// `at_rest` tells whether its velocity is zero or below: the next vehicle,
/// the motion, and the notice.
pub open spec fn tick_spec(v: Vehicle, zone: Zone, at_rest: bool) -> (Vehicle, Motion, Option<Notice>) {
    match v.state {
        State::IDLE => (v, Motion::Keep, None),
        State::PRECHARGE => if v.voltage_v + VOLTAGE_STEP_V >= MAX_VOLTAGE_V {
            (
                Vehicle { state: State::READY, voltage_v: MAX_VOLTAGE_V, ..v },
                Motion::Keep,
                Some(Notice::PrechargeDone),
            )
        } else {
            (
                Vehicle { voltage_v: (v.voltage_v + VOLTAGE_STEP_V) as u32, ..v },
                Motion::Keep,
                None,
            )
        },
        State::READY => (v, Motion::Keep, None),
        State::RUNNING => match zone {
            Zone::Booster => (
                Vehicle { state: State::BOOSTING, ..v },
                Motion::Keep,
                Some(Notice::BoostEntered),
            ),
            Zone::Stopper => (Vehicle { state: State::BRAKING, ..v }, Motion::Keep, None),
            _ => (v, Motion::Cruise, None),
        },
        State::BOOSTING => match zone {
            Zone::Track | Zone::Stopper => (
                Vehicle { state: State::RUNNING, ..v },
                Motion::EndBoost { velocity_kmh: BOOST_TARGET_KMH },
                Some(Notice::BoostSuccess),
            ),
            _ => (v, Motion::Boost { target_kmh: BOOST_TARGET_KMH }, None),
        },
        State::BRAKING => if zone == Zone::Stopper {
            (
                Vehicle { state: State::STOPPED, ..v },
                Motion::HitStopper { position_m: TRACK_END_M },
                Some(Notice::StoppedCritical),
            )
        } else if at_rest {
            (Vehicle { state: State::STOPPED, ..v }, Motion::Halt, Some(Notice::StoppedSuccess))
        } else {
            (v, Motion::Brake { force_n: BRAKE_FORCE_N }, None)
        },
        State::STOPPED => (Vehicle { voltage_v: 0, ..v }, Motion::PowerDown, None),
    }
}

/// One tick of the simulation. While precharging the voltage rises by
/// `VOLTAGE_STEP_V` until it reaches `MAX_VOLTAGE_V`, when the cart is ready;
/// a running cart starts boosting in the booster section and starts braking at
/// the stopper; a boosting cart runs on once past the booster; a braking cart
/// stops at the stopper or when it has come to rest; a stopped cart is powered
/// down.
pub fn tick_physics(vehicle: &mut Vehicle, zone: Zone, at_rest: bool) -> (t: Tick)
    ensures
        *final(vehicle) == tick_spec(*old(vehicle), zone, at_rest).0,
        t.motion == tick_spec(*old(vehicle), zone, at_rest).1,
        t.notice == tick_spec(*old(vehicle), zone, at_rest).2,
{
    match vehicle.state {
        State::IDLE | State::READY => Tick { motion: Motion::Keep, notice: None },
        State::PRECHARGE => {
            if vehicle.voltage_v >= MAX_VOLTAGE_V - VOLTAGE_STEP_V {
                vehicle.voltage_v = MAX_VOLTAGE_V;
                vehicle.state = State::READY;
                Tick { motion: Motion::Keep, notice: Some(Notice::PrechargeDone) }
            } else {
                vehicle.voltage_v = vehicle.voltage_v + VOLTAGE_STEP_V;
                Tick { motion: Motion::Keep, notice: None }
            }
        },
        State::RUNNING => {
            match zone {
                Zone::Booster => {
                    vehicle.state = State::BOOSTING;
                    Tick { motion: Motion::Keep, notice: Some(Notice::BoostEntered) }
                },
                Zone::Stopper => {
                    vehicle.state = State::BRAKING;
                    Tick { motion: Motion::Keep, notice: None }
                },
                _ => Tick { motion: Motion::Cruise, notice: None },
            }
        },
        State::BOOSTING => {
            match zone {
                Zone::Track | Zone::Stopper => {
                    vehicle.state = State::RUNNING;
                    Tick {
                        motion: Motion::EndBoost { velocity_kmh: BOOST_TARGET_KMH },
                        notice: Some(Notice::BoostSuccess),
                    }
                },
                _ => Tick {
                    motion: Motion::Boost { target_kmh: BOOST_TARGET_KMH },
                    notice: None,
                },
            }
        },
        State::BRAKING => {
            if zone == Zone::Stopper {
                vehicle.state = State::STOPPED;
                Tick {
                    motion: Motion::HitStopper { position_m: TRACK_END_M },
                    notice: Some(Notice::StoppedCritical),
                }
            } else if at_rest {
                vehicle.state = State::STOPPED;
                Tick { motion: Motion::Halt, notice: Some(Notice::StoppedSuccess) }
            } else {
                Tick { motion: Motion::Brake { force_n: BRAKE_FORCE_N }, notice: None }
            }
        },
        State::STOPPED => {
            vehicle.voltage_v = 0;
            Tick { motion: Motion::PowerDown, notice: None }
        },
    }
}

} // verus!
