//! Event messages that the simulation announces to the clients.
//!
//! Readings that the messages quote (a position, a velocity) are real numbers
//! held outside this library; they are passed in already written out as text.
use vstd::prelude::*;
use crate::structs::{is_event, Message, MessageType, Notice, PayloadMessage, Topic};

verus! {

/// An event message of the given severity carrying `content`.
pub fn event_message(kind: MessageType, content: String) -> (m: Message)
    ensures
        is_event(m, kind, content@),
{
    Message { topic: Topic::message, payload: PayloadMessage { message_type: kind, content } }
}

/// The precharge has brought the link to full voltage.
pub fn precharge_done() -> (m: Message)
    ensures
        is_event(m, MessageType::success, "V = 400V precharge completed successfully"@),
{
    event_message(MessageType::success, String::from_str("V = 400V precharge completed successfully"))
}

/// The cart came to rest before the stopper, at the position written in `position_m`.
pub fn stopped_success(position_m: &str) -> (m: Message)
    ensures
        is_event(m, MessageType::success, "Cart stopped at s = "@ + position_m@ + " m"@),
{
    let text = String::from_str("Cart stopped at s = ").concat(position_m).concat(" m");
    event_message(MessageType::success, text)
}

/// The cart ran into the mechanical stopper, at the position written in `position_m`.
pub fn stopped_critical(position_m: &str) -> (m: Message)
    ensures
        is_event(
            m,
            MessageType::critical,
            "Cart reached mechanical stopper at s = "@ + position_m@ + " m"@,
        ),
{
    let text = String::from_str("Cart reached mechanical stopper at s = ").concat(position_m).concat(
        " m",
    );
    event_message(MessageType::critical, text)
}

/// The cart has entered the booster section.
pub fn boost_entered() -> (m: Message)
    ensures
        is_event(m, MessageType::info, "Booster section entered"@),
{
    event_message(MessageType::info, String::from_str("Booster section entered"))
}

/// The cart has left the booster at the velocity written in `velocity_kmh`.
pub fn boost_success(velocity_kmh: &str) -> (m: Message)
    ensures
        is_event(m, MessageType::success, "Boost completed. Velocity: "@ + velocity_kmh@),
{
    let text = String::from_str("Boost completed. Velocity: ").concat(velocity_kmh);
    event_message(MessageType::success, text)
}

/// The severity and text of the message that announces `notice`, given the
/// cart's position and velocity written out as text.
pub open spec fn notice_spec(notice: Notice, position_m: Seq<char>, velocity_kmh: Seq<char>) -> (
    MessageType,
    Seq<char>,
) {
    match notice {
        Notice::PrechargeDone => (
            MessageType::success,
            "V = 400V precharge completed successfully"@,
        ),
        Notice::BoostEntered => (MessageType::info, "Booster section entered"@),
        Notice::BoostSuccess => (MessageType::success, "Boost completed. Velocity: "@ + velocity_kmh),
        Notice::StoppedCritical => (
            MessageType::critical,
            "Cart reached mechanical stopper at s = "@ + position_m + " m"@,
        ),
        Notice::StoppedSuccess => (
            MessageType::success,
            "Cart stopped at s = "@ + position_m + " m"@,
        ),
    }
}

/// The message that announces `notice`; `position_m` and `velocity_kmh` are
/// the cart's readings, taken after the tick that raised the notice.
pub fn notice_message(notice: Notice, position_m: &str, velocity_kmh: &str) -> (m: Message)
    ensures
        is_event(
            m,
            notice_spec(notice, position_m@, velocity_kmh@).0,
            notice_spec(notice, position_m@, velocity_kmh@).1,
        ),
{
    match notice {
        Notice::PrechargeDone => precharge_done(),
        Notice::BoostEntered => boost_entered(),
        Notice::BoostSuccess => boost_success(velocity_kmh),
        Notice::StoppedCritical => stopped_critical(position_m),
        Notice::StoppedSuccess => stopped_success(position_m),
    }
}

} // verus!
