use tickbot::controller::BehaviorState;
use tickbot::memory::{CreepsNamespace, MemTable, WorkerMemory};
use tickbot::tick::{next_handler, run_tick, NextHandler};
use tickbot::world::{
    ControllerView, CreepView, Pos, ReturnCode, RoomView, SourceView, SpawnView, TickError,
    WorldSnapshot,
};

fn spawn_point(energy: u32) -> SpawnView {
    SpawnView {
        name: String::from("Spawn1"),
        energy,
        fresh_name_response: ReturnCode::Okay,
    }
}

fn worker(name: &str, carried: u32, capacity: u32) -> CreepView {
    CreepView {
        name: String::from(name),
        spawning: false,
        pos: Pos { x: 10, y: 11 },
        carried,
        capacity,
        room: Some(RoomView {
            sources: vec![SourceView { pos: Pos { x: 10, y: 10 } }],
            controller: Some(ControllerView { pos: Pos { x: 40, y: 40 } }),
        }),
        harvest_response: ReturnCode::Okay,
        upgrade_response: ReturnCode::Okay,
        move_response: ReturnCode::Okay,
    }
}

#[test]
fn end_to_end_tick_3_spawns_and_cleans() {
    // Tick 3: one spawn with enough energy, no unit alive, two stale
    // records in memory.
    let mut stale = MemTable::new();
    stale.set(&String::from("dead-1"), WorkerMemory { harvesting: true });
    stale.set(&String::from("dead-2"), WorkerMemory { harvesting: false });
    let snap = WorldSnapshot {
        tick: 3,
        spawns: vec![spawn_point(300)],
        creeps: vec![],
    };
    let report = run_tick(&snap, CreepsNamespace::Table(stale));

    // The spawn produced one unit named "3-0".
    assert_eq!(report.spawns.len(), 1);
    let attempt = report.spawns[0].attempt.as_ref().unwrap();
    assert_eq!(attempt.name, "3-0");
    assert_eq!(attempt.result, ReturnCode::Okay);
    assert!(!attempt.warned);

    // The janitor ran (3 mod 32 == 3) and removed both stale records.
    let cleanup = report.cleanup.expect("the janitor must run on tick 3");
    let mut deleted = cleanup.deleted.clone();
    deleted.sort();
    assert_eq!(deleted, vec![String::from("dead-1"), String::from("dead-2")]);
    assert!(!cleanup.warned_missing);
    match &report.memory {
        CreepsNamespace::Table(t) => {
            assert_eq!(t.get(&String::from("dead-1")), None);
            assert_eq!(t.get(&String::from("dead-2")), None);
        }
        _ => panic!("the namespace must stay a table"),
    }
    assert_eq!(report.failure, None);
    assert_eq!(next_handler(&report.failure), NextHandler::RunTick);
}

#[test]
fn janitor_is_skipped_off_schedule() {
    let mut stale = MemTable::new();
    stale.set(&String::from("dead-1"), WorkerMemory { harvesting: true });
    let snap = WorldSnapshot {
        tick: 4,
        spawns: vec![],
        creeps: vec![],
    };
    let report = run_tick(&snap, CreepsNamespace::Table(stale));
    assert!(report.cleanup.is_none());
    match &report.memory {
        CreepsNamespace::Table(t) => {
            assert_eq!(
                t.get(&String::from("dead-1")),
                Some(WorkerMemory { harvesting: true })
            );
        }
        _ => panic!("the namespace must stay a table"),
    }
}

#[test]
fn two_spawns_in_one_tick_get_distinct_names() {
    let snap = WorldSnapshot {
        tick: 7,
        spawns: vec![spawn_point(250), spawn_point(250)],
        creeps: vec![],
    };
    let report = run_tick(&snap, CreepsNamespace::Absent);
    let first = report.spawns[0].attempt.as_ref().unwrap();
    let second = report.spawns[1].attempt.as_ref().unwrap();
    assert_eq!(first.name, "7-0");
    assert_eq!(second.name, "7-1");
}

#[test]
fn a_rejected_name_is_reused_by_the_next_spawn() {
    // The first spawn's request is refused, so its name never enters the
    // set of names in use, and the second spawn picks the same suffix.
    let mut busy = spawn_point(250);
    busy.fresh_name_response = ReturnCode::Busy;
    let snap = WorldSnapshot {
        tick: 7,
        spawns: vec![busy, spawn_point(250)],
        creeps: vec![],
    };
    let report = run_tick(&snap, CreepsNamespace::Absent);
    let first = report.spawns[0].attempt.as_ref().unwrap();
    let second = report.spawns[1].attempt.as_ref().unwrap();
    assert!(first.warned);
    assert_eq!(first.name, "7-0");
    assert_eq!(second.name, "7-0");
}

#[test]
fn spawned_names_avoid_living_units() {
    let snap = WorldSnapshot {
        tick: 100,
        spawns: vec![spawn_point(300)],
        creeps: vec![worker("100-0", 25, 50)],
    };
    let report = run_tick(&snap, CreepsNamespace::Absent);
    let attempt = report.spawns[0].attempt.as_ref().unwrap();
    assert_eq!(attempt.name, "100-1");
}

#[test]
fn a_full_unit_flips_to_delivering_during_the_tick() {
    let mut ns = CreepsNamespace::Table(MemTable::new());
    ns = ns.with_flag(&String::from("9-0"), true);
    let snap = WorldSnapshot {
        tick: 9,
        spawns: vec![],
        creeps: vec![worker("9-0", 50, 50)],
    };
    let report = run_tick(&snap, ns);
    assert_eq!(report.creeps.len(), 1);
    assert_eq!(report.creeps[0].state, BehaviorState::Delivering);
    assert_eq!(report.creeps[0].wrote, Some(false));
    assert!(!report.memory.get_flag(&String::from("9-0")));
}

#[test]
fn an_invisible_room_aborts_the_tick() {
    let mut blind = worker("9-0", 25, 50);
    blind.room = None;
    let snap = WorldSnapshot {
        tick: 9,
        spawns: vec![],
        creeps: vec![blind, worker("9-1", 25, 50)],
    };
    let report = run_tick(&snap, CreepsNamespace::Absent);
    assert_eq!(report.failure, Some(TickError::RoomNotVisible));
    // The tick stopped at the failing unit: no later unit took a turn.
    assert_eq!(report.creeps.len(), 0);
    assert!(report.cleanup.is_none());
    assert_eq!(next_handler(&report.failure), NextHandler::Reinitialize);
}

#[test]
fn a_corrupt_namespace_aborts_a_due_tick() {
    let snap = WorldSnapshot {
        tick: 3,
        spawns: vec![],
        creeps: vec![],
    };
    let report = run_tick(&snap, CreepsNamespace::Malformed);
    assert_eq!(report.failure, Some(TickError::MemoryCorrupt));
    assert!(report.cleanup.is_none());
}

#[test]
fn a_corrupt_namespace_is_tolerated_off_schedule() {
    let snap = WorldSnapshot {
        tick: 4,
        spawns: vec![],
        creeps: vec![],
    };
    let report = run_tick(&snap, CreepsNamespace::Malformed);
    assert_eq!(report.failure, None);
}

#[test]
fn an_absent_namespace_makes_the_janitor_warn() {
    let snap = WorldSnapshot {
        tick: 35,
        spawns: vec![],
        creeps: vec![],
    };
    let report = run_tick(&snap, CreepsNamespace::Absent);
    let cleanup = report.cleanup.unwrap();
    assert!(cleanup.warned_missing);
    assert!(cleanup.deleted.is_empty());
}
