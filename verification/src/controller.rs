//! The worker-unit controller: a two-state behavior machine with
//! hysteresis.
//!
//! A unit is either harvesting energy or delivering it to the room's
//! controller. The state flips only at the boundaries — a full load ends
//! harvesting, an empty load starts it — so a unit coasts through
//! intermediate carry levels without re-evaluating its target. The state
//! is kept in the unit's persistent memory record; the transition runs
//! before the unit's action is chosen, so the action always follows the
//! fresh state.

use crate::world::{spec_move_logged, spec_near, CreepView, ReturnCode, TickError};
use vstd::prelude::*;

verus! {

/// The two behavior states of a worker unit.
#[derive(Clone, Copy, PartialEq, Eq, Structural, Debug)]
pub enum BehaviorState {
    Harvesting,
    Delivering,
}

/// The state recorded by a stored behavior flag.
pub open spec fn state_of_flag(harvesting: bool) -> BehaviorState {
    if harvesting {
        BehaviorState::Harvesting
    } else {
        BehaviorState::Delivering
    }
}

/// The flag that records a state.
pub open spec fn flag_of_state(s: BehaviorState) -> bool {
    s == BehaviorState::Harvesting
}

/// The guarded hysteresis transition: harvesting ends exactly when the
/// load is full, delivering ends exactly when the load is empty; between
/// the boundaries the state is kept.
pub open spec fn spec_transition(s: BehaviorState, carried: nat, capacity: nat) -> BehaviorState {
    match s {
        BehaviorState::Harvesting => if carried == capacity {
            BehaviorState::Delivering
        } else {
            BehaviorState::Harvesting
        },
        BehaviorState::Delivering => if carried == 0 {
            BehaviorState::Harvesting
        } else {
            BehaviorState::Delivering
        },
    }
}

/// Run the hysteresis transition on a unit's carry level.
pub fn transition(s: BehaviorState, carried: u32, capacity: u32) -> (r: BehaviorState)
    ensures
        r == spec_transition(s, carried as nat, capacity as nat),
{
    match s {
        BehaviorState::Harvesting => if carried == capacity {
            BehaviorState::Delivering
        } else {
            BehaviorState::Harvesting
        },
        BehaviorState::Delivering => if carried == 0 {
            BehaviorState::Harvesting
        } else {
            BehaviorState::Delivering
        },
    }
}

/// Hysteresis: with a carried amount strictly between empty and full, a
/// tick crosses no boundary and leaves the state unchanged.
pub proof fn lemma_hysteresis_interior(s: BehaviorState, carried: nat, capacity: nat)
    requires
        0 < carried < capacity,
    ensures
        spec_transition(s, carried, capacity) == s,
{
}

/// A harvesting unit whose load is full switches to delivering in the
/// same tick.
pub proof fn lemma_full_ends_harvesting(carried: nat, capacity: nat)
    requires
        carried == capacity,
    ensures
        spec_transition(BehaviorState::Harvesting, carried, capacity) == BehaviorState::Delivering,
{
}

/// A delivering unit whose load is empty switches to harvesting in the
/// same tick.
pub proof fn lemma_empty_starts_harvesting(capacity: nat)
    ensures
        spec_transition(BehaviorState::Delivering, 0, capacity) == BehaviorState::Harvesting,
{
}

/// The transition runs before the action: a unit's turn acts on the
/// freshly transitioned state, never on the stored one, and writes the
/// flag back exactly when the state changed.
pub proof fn lemma_transition_precedes_action(c: CreepView, old_flag: bool)
    requires
        !c.spawning,
        spec_run_creep(c, old_flag) is Ok,
    ensures
        (spec_run_creep(c, old_flag)->Ok_0).state == spec_transition(
            state_of_flag(old_flag),
            c.carried as nat,
            c.capacity as nat,
        ),
        (spec_run_creep(c, old_flag)->Ok_0).wrote == (if (spec_run_creep(c, old_flag)->Ok_0).state
            != state_of_flag(old_flag) {
            Some(flag_of_state((spec_run_creep(c, old_flag)->Ok_0).state))
        } else {
            None::<bool>
        }),
{
}

/// The single action a unit takes in a tick, with the logging the host's
/// answers caused.
#[derive(Clone, Copy, PartialEq, Eq, Structural, Debug)]
pub enum CreepAct {
    /// Still materializing: no action, no memory access.
    Skipped,
    /// Next to the first source: harvest; `warned` iff the host refused.
    Harvest { warned: bool },
    /// Not yet next to the first source: move toward it; `move_logged`
    /// iff the host's answer is logged at debug severity.
    MoveToSource { move_logged: bool },
    /// Upgrade the controller; `warned` iff the host refused for a reason
    /// other than range.
    Upgrade { warned: bool },
    /// Upgrade answered "not in range": move toward the controller.
    UpgradeThenMove { move_logged: bool },
    /// The room has no controller: warn, take no action.
    NoController,
}

/// What one unit's turn did.
#[derive(Clone, Copy, PartialEq, Eq, Structural, Debug)]
pub struct CreepOutcome {
    /// Behavior state after the transition, the one the action follows.
    pub state: BehaviorState,
    /// The flag written back to the unit's memory record, when an edge
    /// fired this tick.
    pub wrote: Option<bool>,
    pub act: CreepAct,
}

/// One worker unit's full turn, as a function of its snapshot and its
/// stored behavior flag.
///
/// A spawning unit does nothing. Otherwise the hysteresis transition runs
/// first (writing the flag back exactly when it changed), and the action
/// follows the fresh state: a harvesting unit works the first source of
/// its room, a delivering unit upgrades the room's controller. A missing
/// room, or a room without any source for a harvesting unit, is fatal to
/// the tick.
pub open spec fn spec_run_creep(c: CreepView, old_flag: bool) -> Result<CreepOutcome, TickError> {
    if c.spawning {
        Ok(CreepOutcome { state: state_of_flag(old_flag), wrote: None, act: CreepAct::Skipped })
    } else {
        let s0 = state_of_flag(old_flag);
        let s1 = spec_transition(s0, c.carried as nat, c.capacity as nat);
        let wrote = if s1 != s0 {
            Some(flag_of_state(s1))
        } else {
            None::<bool>
        };
        match c.room {
            None => Err(TickError::RoomNotVisible),
            Some(room) => match s1 {
                BehaviorState::Harvesting => {
                    if room.sources@.len() == 0 {
                        Err(TickError::RoomHasNoSource)
                    } else if spec_near(c.pos, room.sources@[0].pos) {
                        Ok(
                            CreepOutcome {
                                state: s1,
                                wrote,
                                act: CreepAct::Harvest {
                                    warned: c.harvest_response != ReturnCode::Okay,
                                },
                            },
                        )
                    } else {
                        Ok(
                            CreepOutcome {
                                state: s1,
                                wrote,
                                act: CreepAct::MoveToSource {
                                    move_logged: spec_move_logged(c.move_response),
                                },
                            },
                        )
                    }
                },
                BehaviorState::Delivering => match room.controller {
                    None => Ok(CreepOutcome { state: s1, wrote, act: CreepAct::NoController }),
                    Some(_) => {
                        if c.upgrade_response == ReturnCode::NotInRange {
                            Ok(
                                CreepOutcome {
                                    state: s1,
                                    wrote,
                                    act: CreepAct::UpgradeThenMove {
                                        move_logged: spec_move_logged(c.move_response),
                                    },
                                },
                            )
                        } else {
                            Ok(
                                CreepOutcome {
                                    state: s1,
                                    wrote,
                                    act: CreepAct::Upgrade {
                                        warned: c.upgrade_response != ReturnCode::Okay,
                                    },
                                },
                            )
                        }
                    },
                },
            },
        }
    }
}

/// Run one worker unit's turn.
pub fn run_creep(c: &CreepView, old_flag: bool) -> (r: Result<CreepOutcome, TickError>)
    ensures
        r == spec_run_creep(*c, old_flag),
{
    if c.spawning {
        return Ok(
            CreepOutcome { state: state_of_flag_exec(old_flag), wrote: None, act: CreepAct::Skipped },
        );
    }
    let s0 = state_of_flag_exec(old_flag);
    let s1 = transition(s0, c.carried, c.capacity);
    let wrote: Option<bool> = if s1 != s0 {
        Some(s1 == BehaviorState::Harvesting)
    } else {
        None
    };
    match &c.room {
        None => Err(TickError::RoomNotVisible),
        Some(room) => match s1 {
            BehaviorState::Harvesting => {
                if room.sources.len() == 0 {
                    Err(TickError::RoomHasNoSource)
                } else if c.pos.is_near_to(room.sources[0].pos) {
                    Ok(
                        CreepOutcome {
                            state: s1,
                            wrote,
                            act: CreepAct::Harvest {
                                warned: c.harvest_response != ReturnCode::Okay,
                            },
                        },
                    )
                } else {
                    Ok(
                        CreepOutcome {
                            state: s1,
                            wrote,
                            act: CreepAct::MoveToSource {
                                move_logged: crate::world::classify_move_result(c.move_response),
                            },
                        },
                    )
                }
            },
            BehaviorState::Delivering => match &room.controller {
                None => Ok(CreepOutcome { state: s1, wrote, act: CreepAct::NoController }),
                Some(_) => {
                    if c.upgrade_response == ReturnCode::NotInRange {
                        Ok(
                            CreepOutcome {
                                state: s1,
                                wrote,
                                act: CreepAct::UpgradeThenMove {
                                    move_logged: crate::world::classify_move_result(
                                        c.move_response,
                                    ),
                                },
                            },
                        )
                    } else {
                        Ok(
                            CreepOutcome {
                                state: s1,
                                wrote,
                                act: CreepAct::Upgrade {
                                    warned: c.upgrade_response != ReturnCode::Okay,
                                },
                            },
                        )
                    }
                },
            },
        },
    }
}

/// The state recorded by a stored behavior flag.
pub fn state_of_flag_exec(harvesting: bool) -> (r: BehaviorState)
    ensures
        r == state_of_flag(harvesting),
{
    if harvesting {
        BehaviorState::Harvesting
    } else {
        BehaviorState::Delivering
    }
}

} // verus!
