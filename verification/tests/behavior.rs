use tickbot::controller::{run_creep, transition, BehaviorState, CreepAct};
use tickbot::world::{ControllerView, CreepView, Pos, ReturnCode, RoomView, SourceView, TickError};

fn room_with_source_and_controller() -> RoomView {
    RoomView {
        sources: vec![SourceView { pos: Pos { x: 10, y: 10 } }],
        controller: Some(ControllerView { pos: Pos { x: 40, y: 40 } }),
    }
}

fn worker(carried: u32, capacity: u32) -> CreepView {
    CreepView {
        name: String::from("3-0"),
        spawning: false,
        pos: Pos { x: 10, y: 11 },
        carried,
        capacity,
        room: Some(room_with_source_and_controller()),
        harvest_response: ReturnCode::Okay,
        upgrade_response: ReturnCode::Okay,
        move_response: ReturnCode::Okay,
    }
}

#[test]
fn hysteresis_keeps_state_strictly_inside_bounds() {
    for carried in 1..50 {
        assert_eq!(
            transition(BehaviorState::Harvesting, carried, 50),
            BehaviorState::Harvesting
        );
        assert_eq!(
            transition(BehaviorState::Delivering, carried, 50),
            BehaviorState::Delivering
        );
    }
}

#[test]
fn full_load_ends_harvesting_before_the_action() {
    assert_eq!(
        transition(BehaviorState::Harvesting, 50, 50),
        BehaviorState::Delivering
    );
    // Through a whole turn: the action taken is already the delivering one.
    let unit = worker(50, 50);
    let out = run_creep(&unit, true).unwrap();
    assert_eq!(out.state, BehaviorState::Delivering);
    assert_eq!(out.wrote, Some(false));
    assert_eq!(out.act, CreepAct::Upgrade { warned: false });
}

#[test]
fn empty_load_starts_harvesting_before_the_action() {
    assert_eq!(
        transition(BehaviorState::Delivering, 0, 50),
        BehaviorState::Harvesting
    );
    let unit = worker(0, 50);
    let out = run_creep(&unit, false).unwrap();
    assert_eq!(out.state, BehaviorState::Harvesting);
    assert_eq!(out.wrote, Some(true));
    // Adjacent to the source, so the unit harvests.
    assert_eq!(out.act, CreepAct::Harvest { warned: false });
}

#[test]
fn coasting_unit_writes_nothing() {
    let unit = worker(25, 50);
    let out = run_creep(&unit, true).unwrap();
    assert_eq!(out.state, BehaviorState::Harvesting);
    assert_eq!(out.wrote, None);
    let out = run_creep(&unit, false).unwrap();
    assert_eq!(out.state, BehaviorState::Delivering);
    assert_eq!(out.wrote, None);
}

#[test]
fn spawning_unit_is_skipped() {
    let mut unit = worker(50, 50);
    unit.spawning = true;
    let out = run_creep(&unit, true).unwrap();
    assert_eq!(out.act, CreepAct::Skipped);
    assert_eq!(out.wrote, None);
}

#[test]
fn distant_harvester_moves_toward_the_source() {
    let mut unit = worker(0, 50);
    unit.pos = Pos { x: 20, y: 20 };
    let out = run_creep(&unit, true).unwrap();
    assert_eq!(out.act, CreepAct::MoveToSource { move_logged: false });
}

#[test]
fn failed_harvest_is_warned_about() {
    let mut unit = worker(0, 50);
    unit.harvest_response = ReturnCode::NotEnough;
    let out = run_creep(&unit, true).unwrap();
    assert_eq!(out.act, CreepAct::Harvest { warned: true });
}

#[test]
fn out_of_range_upgrade_turns_into_movement() {
    let mut unit = worker(50, 50);
    unit.upgrade_response = ReturnCode::NotInRange;
    let out = run_creep(&unit, false).unwrap();
    assert_eq!(out.act, CreepAct::UpgradeThenMove { move_logged: false });
}

#[test]
fn failed_upgrade_is_warned_about() {
    let mut unit = worker(50, 50);
    unit.upgrade_response = ReturnCode::NotOwner;
    let out = run_creep(&unit, false).unwrap();
    assert_eq!(out.act, CreepAct::Upgrade { warned: true });
}

#[test]
fn room_without_controller_is_warned_about() {
    let mut unit = worker(50, 50);
    unit.room = Some(RoomView {
        sources: vec![SourceView { pos: Pos { x: 10, y: 10 } }],
        controller: None,
    });
    let out = run_creep(&unit, false).unwrap();
    assert_eq!(out.act, CreepAct::NoController);
}

#[test]
fn invisible_room_is_fatal() {
    let mut unit = worker(0, 50);
    unit.room = None;
    assert_eq!(run_creep(&unit, true), Err(TickError::RoomNotVisible));
}

#[test]
fn sourceless_room_is_fatal_to_a_harvester() {
    let mut unit = worker(0, 50);
    unit.room = Some(RoomView {
        sources: vec![],
        controller: Some(ControllerView { pos: Pos { x: 40, y: 40 } }),
    });
    assert_eq!(run_creep(&unit, true), Err(TickError::RoomHasNoSource));
}
