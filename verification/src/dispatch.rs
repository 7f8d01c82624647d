//! The dispatch tick: from the drained power and the held bonus to the
//! output power, the speed sent to the devices, and the commands of one
//! fan-out.

use crate::held::{bonus_of, HeldSet};
use crate::power::{clamp_power, decay, PowerAccumulator, MAX_POWER, POWER_ONE};
use vstd::prelude::*;

verus! {

/// The highest speed that a device takes, exactly one.
pub const FULL_SPEED: u64 = 100_000;

/// Number of marks in the bar that shows a full speed.
pub const BAR_WIDTH: u64 = 5;

/// Time from one tick to the next, in milliseconds.
pub const TICK_MILLIS: u64 = 50;

/// The output power of a tick: what was drained plus the held bonus,
/// limited to `MAX_POWER`.
pub open spec fn output_power(event_power: nat, held_power: nat) -> nat {
    clamp_power(event_power + held_power)
}

/// The speed sent to the devices at an output power: the power itself,
/// limited to `FULL_SPEED`.
pub open spec fn speed_of(power: nat) -> nat {
    if power > FULL_SPEED {
        FULL_SPEED as nat
    } else {
        power
    }
}

/// Number of marks in the bar for a speed: `BAR_WIDTH` times the speed,
/// rounded down.
pub open spec fn bar_marks(speed: nat) -> nat {
    speed * BAR_WIDTH as nat / POWER_ONE as nat
}

/// What one tick puts out.
#[derive(Clone, Copy, Debug, PartialEq, Eq, Structural)]
pub struct Output {
    /// The output power, at most `MAX_POWER`.
    pub power: u64,
    /// The speed commanded, at most `FULL_SPEED`.
    pub speed: u64,
}

/// A device of the fleet as the dispatch loop sees it.
#[derive(Clone, Copy, Debug, PartialEq, Eq, Structural)]
pub struct Device {
    /// Whether the device can vibrate.
    pub vibrates: bool,
}

/// The order to set one device's vibration speed.
#[derive(Clone, Copy, Debug, PartialEq, Eq, Structural)]
pub struct SpeedCommand {
    /// Place of the device in the fleet.
    pub device: usize,
    /// The speed to set, at most `FULL_SPEED`.
    pub speed: u64,
}

/// The commands of one fan-out to the first `n` devices of `fleet`: one for
/// each device that vibrates, in the fleet's order, all with `speed`.
pub open spec fn commands_for(fleet: Seq<Device>, speed: u64, n: nat) -> Seq<SpeedCommand>
    decreases n,
{
    if n == 0 {
        Seq::empty()
    } else {
        let before = commands_for(fleet, speed, (n - 1) as nat);
        if fleet[n - 1].vibrates {
            before.push(SpeedCommand { device: (n - 1) as usize, speed })
        } else {
            before
        }
    }
}

/// What a fan-out holds: a command goes only to a device that vibrates,
/// every such device gets one, in the fleet's order and so none twice, and
/// each command carries `speed`.
pub proof fn lemma_commands_for(fleet: Seq<Device>, speed: u64, n: nat)
    requires
        n <= fleet.len() <= usize::MAX,
    ensures
        commands_for(fleet, speed, n).len() <= n,
        forall|j: int|
            0 <= j < commands_for(fleet, speed, n).len() ==> {
                let command = #[trigger] commands_for(fleet, speed, n)[j];
                command.device < n && fleet[command.device as int].vibrates && command.speed
                    == speed
            },
        forall|j: int, k: int|
            0 <= j < k < commands_for(fleet, speed, n).len() ==> (#[trigger] commands_for(
                fleet,
                speed,
                n,
            )[j]).device < (#[trigger] commands_for(fleet, speed, n)[k]).device,
        forall|i: int|
            0 <= i < n && (#[trigger] fleet[i]).vibrates ==> commands_for(fleet, speed, n).contains(
                SpeedCommand { device: i as usize, speed },
            ),
    decreases n,
{
    if n > 0 {
        let m: nat = (n - 1) as nat;
        let before = commands_for(fleet, speed, m);
        lemma_commands_for(fleet, speed, m);
        let now = commands_for(fleet, speed, n);
        assert forall|i: int| 0 <= i < n && (#[trigger] fleet[i]).vibrates implies now.contains(
            SpeedCommand { device: i as usize, speed },
        ) by {
            let wanted = SpeedCommand { device: i as usize, speed };
            if i < m {
                let j = choose|j: int| 0 <= j < before.len() && before[j] == wanted;
                assert(now[j] == wanted);
            } else {
                assert(now[now.len() - 1] == wanted);
            }
        }
    }
}

/// Output power and speed of a tick that drained `event_power` while the
/// held buttons were worth `held_power`.
pub fn combine(event_power: u64, held_power: u64) -> (out: Output)
    ensures
        out.power == output_power(event_power as nat, held_power as nat),
        out.speed == speed_of(out.power as nat),
        out.power <= MAX_POWER,
        out.speed <= FULL_SPEED,
{
    let sum: u64 = event_power.saturating_add(held_power);
    let power: u64 = if sum > MAX_POWER {
        MAX_POWER
    } else {
        sum
    };
    let speed: u64 = if power > FULL_SPEED {
        FULL_SPEED
    } else {
        power
    };
    Output { power, speed }
}

/// Number of marks in the bar that shows `speed`.
pub fn bar_length(speed: u64) -> (marks: u64)
    ensures
        marks == bar_marks(speed as nat),
        speed <= FULL_SPEED ==> marks <= BAR_WIDTH,
{
    assert(speed * 5 / 100_000 == speed / 20_000) by (nonlinear_arith);
    speed / (POWER_ONE / BAR_WIDTH)
}

/// The commands of one fan-out: `speed` for every device of `fleet` that
/// vibrates, and nothing for the others.
pub fn fan_out(fleet: &Vec<Device>, speed: u64) -> (commands: Vec<SpeedCommand>)
    ensures
        commands@ == commands_for(fleet@, speed, fleet@.len()),
{
    let mut commands: Vec<SpeedCommand> = Vec::new();
    let mut i: usize = 0;
    while i < fleet.len()
        invariant
            i <= fleet@.len(),
            commands@ == commands_for(fleet@, speed, i as nat),
        decreases fleet@.len() - i,
    {
        if fleet[i].vibrates {
            commands.push(SpeedCommand { device: i, speed });
        }
        i = i + 1;
    }
    commands
}

/// What one tick does, apart from the waiting and the sending.
pub struct Tick {
    /// Output power and speed.
    pub output: Output,
    /// The commands to send, one for each device that vibrates.
    pub commands: Vec<SpeedCommand>,
}

/// One tick: drains `power` by one decay step, adds the bonus of `held`,
/// and gives the output with the commands for `fleet`.
pub fn tick(power: &mut PowerAccumulator, held: &HeldSet, fleet: &Vec<Device>) -> (t: Tick)
    ensures
        final(power)@ == decay(clamp_power(old(power)@)),
        t.output.power == output_power(clamp_power(old(power)@), bonus_of(held@)),
        t.output.speed == speed_of(t.output.power as nat),
        t.output.speed <= FULL_SPEED,
        t.commands@ == commands_for(fleet@, t.output.speed, fleet@.len()),
{
    let event_power: u64 = power.drain_decayed();
    let held_power: u64 = held.bonus();
    let output: Output = combine(event_power, held_power);
    let commands: Vec<SpeedCommand> = fan_out(fleet, output.speed);
    Tick { output, commands }
}

} // verus!
