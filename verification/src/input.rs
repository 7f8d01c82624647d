//! What one event of the input source does to the shared state.

use crate::botton::Botton;
use crate::held::HeldSet;
use crate::motion::{movement_power, wheel_power, wheel_power_of, PointerTracker, Position};
use crate::power::PowerAccumulator;
use vstd::prelude::*;

verus! {

/// An event of the input source.
#[derive(Clone, Copy, Debug, PartialEq, Eq, Structural)]
pub enum InputEvent {
    /// The pointer was seen at a position.
    PointerMoved(Position),
    /// The wheel was turned by the given steps.
    WheelScrolled { delta_x: i64, delta_y: i64 },
    /// A button went down.
    ButtonPressed(Botton),
    /// A button came up.
    ButtonReleased(Botton),
    /// Anything else: it changes nothing.
    Other,
}

/// The power that `event` adds when the pointer was last seen at `last`.
/// Only pointer travel and the wheel add power; buttons count through the
/// held set.
pub open spec fn event_power(last: Option<Position>, event: InputEvent) -> int {
    match event {
        InputEvent::PointerMoved(to) => movement_power(last, to),
        InputEvent::WheelScrolled { delta_x, delta_y } => wheel_power_of(
            delta_x as int,
            delta_y as int,
        ),
        _ => 0,
    }
}

/// Where the pointer was last seen after `event`.
pub open spec fn last_after(last: Option<Position>, event: InputEvent) -> Option<Position> {
    match event {
        InputEvent::PointerMoved(to) => Some(to),
        _ => last,
    }
}

/// The held buttons after `event`.
pub open spec fn held_after(held: Set<Botton>, event: InputEvent) -> Set<Botton> {
    match event {
        InputEvent::ButtonPressed(b) => held.insert(b),
        InputEvent::ButtonReleased(b) => held.remove(b),
        _ => held,
    }
}

/// Takes in one event: adds the power it is worth to `power`, records a
/// press or release in `held`, and remembers in `tracker` where the pointer
/// was seen.
pub fn capture(
    tracker: &mut PointerTracker,
    power: &mut PowerAccumulator,
    held: &mut HeldSet,
    event: InputEvent,
)
    ensures
        final(tracker)@ == last_after(old(tracker)@, event),
        final(power)@ == old(power)@ + event_power(old(tracker)@, event),
        final(held)@ == held_after(old(held)@, event),
{
    match event {
        InputEvent::PointerMoved(to) => {
            let delta: u64 = tracker.on_move(to);
            power.add(delta as u128);
        },
        InputEvent::WheelScrolled { delta_x, delta_y } => {
            power.add(wheel_power(delta_x, delta_y));
        },
        InputEvent::ButtonPressed(b) => {
            held.on_press(b);
        },
        InputEvent::ButtonReleased(b) => {
            held.on_release(b);
        },
        InputEvent::Other => {},
    }
}

} // verus!
