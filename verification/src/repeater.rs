//! The rules of the redstone repeater: locking, powering, the delay
//! setting, and the ticks it schedules.
//!
//! The repeater reads its surroundings through the caller: the inputs of
//! the functions here are what the caller found in the world, their results
//! what it is to do there.
use crate::direction::{BlockDirection, HorizontalFacing};
use crate::vector3::BlockPos;
use vstd::prelude::*;

verus! {

/// The signal strength of a powered repeater.
pub const FULL_POWER: u8 = 15;

/// One of four settings.
#[derive(Clone, Copy, Debug, PartialEq, Eq)]
pub enum Integer1To4 {
    L1,
    L2,
    L3,
    L4,
}

/// How urgent a scheduled block tick is.
#[derive(Clone, Copy, Debug, PartialEq, Eq)]
pub enum TickPriority {
    ExtremelyHigh,
    VeryHigh,
    High,
    Normal,
    Low,
    VeryLow,
    ExtremelyLow,
}

/// The state of a repeater block.
#[derive(Clone, Copy, Debug, PartialEq, Eq)]
pub struct RepeaterProperties {
    pub delay: Integer1To4,
    pub facing: HorizontalFacing,
    pub locked: bool,
    pub powered: bool,
}

/// A block tick to schedule.
#[derive(Clone, Copy, Debug, PartialEq, Eq)]
pub struct ScheduledTick {
    /// The number of game ticks to wait.
    pub delay: u16,
    pub priority: TickPriority,
}

/// What a repeater does when a neighbour has changed.
#[derive(Clone, Copy, Debug, PartialEq, Eq)]
pub struct NeighborUpdate {
    /// The state of the repeater after the update.
    pub properties: RepeaterProperties,
    /// The state differs from the one before and is to be written back.
    pub state_changed: bool,
    /// The tick to schedule for the repeater, if any.
    pub schedule: Option<ScheduledTick>,
}

impl Integer1To4 {
    /// The position of the setting, counted from zero.
    pub open spec fn index(self) -> int {
        match self {
            Integer1To4::L1 => 0,
            Integer1To4::L2 => 1,
            Integer1To4::L3 => 2,
            Integer1To4::L4 => 3,
        }
    }

    /// The position of the setting, counted from zero.
    pub fn to_index(&self) -> (i: u16)
        ensures
            i == self.index(),
    {
        match self {
            Integer1To4::L1 => 0,
            Integer1To4::L2 => 1,
            Integer1To4::L3 => 2,
            Integer1To4::L4 => 3,
        }
    }
}

/// The delay of a repeater in game ticks: one redstone tick, which is two
/// game ticks, for each step of the setting.
pub open spec fn delay_ticks(delay: Integer1To4) -> int {
    (delay.index() + 1) * 2
}

/// The urgency of a repeater's tick: highest in front of another diode,
/// higher for switching off than for switching on.
pub open spec fn priority_of(front_is_diode: bool, should_be_powered: bool) -> TickPriority {
    if front_is_diode {
        TickPriority::ExtremelyHigh
    } else if !should_be_powered {
        TickPriority::VeryHigh
    } else {
        TickPriority::High
    }
}

/// The signal that a repeater in the state `props` sends in `direction`.
pub open spec fn power_toward(props: RepeaterProperties, direction: BlockDirection) -> u8 {
    if props.facing.direction() == direction && props.powered {
        FULL_POWER
    } else {
        0
    }
}

pub struct RepeaterBlock;

impl RepeaterBlock {
    /// The state of a repeater that a player who looks toward
    /// `player_facing` places: it faces the player, is locked if
    /// `should_be_locked`, and is powered if it is not locked and
    /// `should_be_powered`.
    pub fn on_place(
        player_facing: HorizontalFacing,
        should_be_locked: bool,
        should_be_powered: bool,
    ) -> (props: RepeaterProperties)
        ensures
            props.delay == Integer1To4::L1,
            props.facing.direction() == player_facing.direction().reversed(),
            props.locked == should_be_locked,
            props.powered == (!should_be_locked && should_be_powered),
    {
        let mut props = RepeaterProperties {
            delay: Integer1To4::L1,
            facing: HorizontalFacing::North,
            locked: false,
            powered: false,
        };
        let dir = player_facing.opposite();
        props.facing = dir;
        props.locked = should_be_locked;
        if !props.locked {
            props.powered = should_be_powered;
        }
        props
    }

    /// What a repeater in the state `rep` does when a neighbour has
    /// changed. It takes over the lock that its sides ask for. Unlocked and
    /// without a tick already scheduled, it schedules one if its input
    /// differs from its output.
    pub fn on_neighbor_update(
        rep: RepeaterProperties,
        should_be_locked: bool,
        tick_scheduled: bool,
        should_be_powered: bool,
        front_is_diode: bool,
    ) -> (update: NeighborUpdate)
        ensures
            update.properties == (RepeaterProperties { locked: should_be_locked, ..rep }),
            update.state_changed == (rep.locked != should_be_locked),
            update.schedule == if !should_be_locked && !tick_scheduled && should_be_powered
                != rep.powered {
                Some(RepeaterBlock::tick_for(rep, should_be_powered, front_is_diode))
            } else {
                None
            },
    {
        let mut rep = rep;
        let mut state_changed = false;
        if !rep.locked && should_be_locked {
            rep.locked = true;
            state_changed = true;
        } else if rep.locked && !should_be_locked {
            rep.locked = false;
            state_changed = true;
        }
        let mut schedule: Option<ScheduledTick> = None;
        if !rep.locked && !tick_scheduled {
            if should_be_powered != rep.powered {
                schedule = Some(RepeaterBlock::schedule_tick(rep, should_be_powered, front_is_diode));
            }
        }
        NeighborUpdate { properties: rep, state_changed, schedule }
    }

    /// The state of a repeater after its scheduled tick, if the tick
    /// changes it: a locked repeater stays as it is; a powered one switches
    /// off when its input is gone; one that is off switches on.
    pub fn on_scheduled_tick(rep: RepeaterProperties, should_be_powered: bool) -> (r: Option<
        RepeaterProperties,
    >)
        ensures
            r == if rep.locked {
                None
            } else if rep.powered && !should_be_powered {
                Some(RepeaterProperties { powered: false, ..rep })
            } else if !rep.powered {
                Some(RepeaterProperties { powered: true, ..rep })
            } else {
                None
            },
    {
        let mut rep = rep;
        if rep.locked {
            return None;
        }
        if rep.powered && !should_be_powered {
            rep.powered = false;
            Some(rep)
        } else if !rep.powered {
            rep.powered = true;
            Some(rep)
        } else {
            None
        }
    }

    /// The state of a repeater after a player has used it: the delay moves
    /// on by one setting and starts over after the last.
    pub fn on_use(props: RepeaterProperties) -> (r: RepeaterProperties)
        ensures
            r == (RepeaterProperties { delay: r.delay, ..props }),
            r.delay.index() == (props.delay.index() + 1) % 4,
    {
        let mut props = props;
        props.delay =
        match props.delay {
            Integer1To4::L1 => Integer1To4::L2,
            Integer1To4::L2 => Integer1To4::L3,
            Integer1To4::L3 => Integer1To4::L4,
            Integer1To4::L4 => Integer1To4::L1,
        };
        props
    }

    /// The weak signal that the repeater sends in `direction`.
    pub fn get_weak_redstone_power(
        repeater_props: &RepeaterProperties,
        direction: BlockDirection,
    ) -> (power: u8)
        ensures
            power == power_toward(*repeater_props, direction),
    {
        if repeater_props.facing.to_block_direction().same_as(&direction) && repeater_props.powered {
            return FULL_POWER;
        }
        0
    }

    /// The strong signal that the repeater sends in `direction`.
    pub fn get_strong_redstone_power(
        repeater_props: &RepeaterProperties,
        direction: BlockDirection,
    ) -> (power: u8)
        ensures
            power == power_toward(*repeater_props, direction),
    {
        if repeater_props.facing.to_block_direction().same_as(&direction) && repeater_props.powered {
            return FULL_POWER;
        }
        0
    }

    /// Tells whether redstone connects to the repeater from `direction`:
    /// it does along the axis of the repeater.
    pub fn emits_redstone_power(repeater_props: &RepeaterProperties, direction: BlockDirection) -> (b:
        bool)
        ensures
            b == (repeater_props.facing.direction() == direction
                || repeater_props.facing.direction() == direction.reversed()),
    {
        repeater_props.facing.to_block_direction().same_as(&direction)
            || repeater_props.facing.to_block_direction().same_as(&direction.opposite())
    }

    /// Tells whether the signals at the two sides lock the repeater.
    pub fn should_be_locked(right_side: u8, left_side: u8) -> (b: bool)
        ensures
            b == (right_side > 0 || left_side > 0),
    {
        let strongest: u8 = if right_side > left_side {
            right_side
        } else {
            left_side
        };
        strongest > 0
    }

    /// The signal that locks the repeater from one side: that of a diode
    /// which stands there, and none from any other block.
    pub fn get_power_on_side(side_is_diode: bool, weak_power: u8) -> (power: u8)
        ensures
            power == if side_is_diode {
                weak_power
            } else {
                0
            },
    {
        if side_is_diode {
            weak_power
        } else {
            0
        }
    }

    /// Tells whether the input of the given strength powers the repeater.
    pub fn should_be_powered(input_strength: u8) -> (b: bool)
        ensures
            b == (input_strength > 0),
    {
        input_strength > 0
    }

    /// The tick that a repeater in the state `rep` schedules.
    pub open spec fn tick_for(
        rep: RepeaterProperties,
        should_be_powered: bool,
        front_is_diode: bool,
    ) -> ScheduledTick {
        ScheduledTick {
            delay: delay_ticks(rep.delay) as u16,
            priority: priority_of(front_is_diode, should_be_powered),
        }
    }

    /// The tick that a repeater in the state `rep` schedules when its
    /// output is to follow its input.
    pub fn schedule_tick(rep: RepeaterProperties, should_be_powered: bool, front_is_diode: bool) -> (t:
        ScheduledTick)
        ensures
            t == RepeaterBlock::tick_for(rep, should_be_powered, front_is_diode),
            t.delay == delay_ticks(rep.delay),
    {
        let priority = if front_is_diode {
            TickPriority::ExtremelyHigh
        } else if !should_be_powered {
            TickPriority::VeryHigh
        } else {
            TickPriority::High
        };
        ScheduledTick {
            // 1 redstone tick = 2 ticks
            delay: (rep.delay.to_index() + 1) * 2,
            priority,
        }
    }

    /// The position in front of a repeater at `pos`: the block that it
    /// sends its signal to.
    pub fn front_pos(rep: &RepeaterProperties, pos: &BlockPos) -> (front: BlockPos)
        requires
            i32::MIN < pos.x < i32::MAX,
            i32::MIN < pos.y < i32::MAX,
            i32::MIN < pos.z < i32::MAX,
        ensures
            (front.x as int, front.y as int, front.z as int) == pos.neighbor(
                rep.facing.direction().reversed(),
            ),
    {
        pos.offset(rep.facing.opposite().to_block_direction().to_offset())
    }

    /// The blocks that are told when a repeater at `pos` has switched: the
    /// block in front of it, then the six neighbours of that block.
    pub fn on_state_change(rep: &RepeaterProperties, pos: &BlockPos) -> (targets: Vec<BlockPos>)
        requires
            i32::MIN + 1 < pos.x < i32::MAX - 1,
            i32::MIN + 1 < pos.y < i32::MAX - 1,
            i32::MIN + 1 < pos.z < i32::MAX - 1,
        ensures
            targets@.len() == 7,
            (targets@[0].x as int, targets@[0].y as int, targets@[0].z as int) == pos.neighbor(
                rep.facing.direction().reversed(),
            ),
            forall|i: int|
                #![trigger targets@[i + 1]]
                0 <= i < 6 ==> (
                    targets@[i + 1].x as int,
                    targets@[i + 1].y as int,
                    targets@[i + 1].z as int,
                ) == targets@[0].neighbor(all_directions()[i]),
    {
        let front_pos = RepeaterBlock::front_pos(rep, pos);
        let mut targets: Vec<BlockPos> = Vec::new();
        targets.push(front_pos);
        let directions = BlockDirection::all();
        let mut i: usize = 0;
        while i < 6
            invariant
                i <= 6,
                directions@ == all_directions(),
                targets@.len() == i + 1,
                targets@[0] == front_pos,
                i32::MIN < front_pos.x < i32::MAX,
                i32::MIN < front_pos.y < i32::MAX,
                i32::MIN < front_pos.z < i32::MAX,
                forall|j: int|
                    #![trigger targets@[j + 1]]
                    0 <= j < i ==> (
                        targets@[j + 1].x as int,
                        targets@[j + 1].y as int,
                        targets@[j + 1].z as int,
                    ) == front_pos.neighbor(all_directions()[j]),
            decreases 6 - i,
        {
            let neighbor_pos = front_pos.offset(directions[i].to_offset());
            targets.push(neighbor_pos);
            i += 1;
        }
        targets
    }
}

/// The six directions in the order in which neighbours are told.
pub open spec fn all_directions() -> Seq<BlockDirection> {
    seq![
        BlockDirection::Down,
        BlockDirection::Up,
        BlockDirection::North,
        BlockDirection::South,
        BlockDirection::West,
        BlockDirection::East,
    ]
}

} // verus!
