use tickbot::names::{render_name, render_u32};
use tickbot::spawner::{body_cost, choose_name, run_spawn, worker_body};
use tickbot::world::{PartKind, ReturnCode, SpawnView};

#[test]
fn numbers_render_in_decimal() {
    assert_eq!(render_u32(0), "0");
    assert_eq!(render_u32(7), "7");
    assert_eq!(render_u32(10), "10");
    assert_eq!(render_u32(1234), "1234");
    assert_eq!(render_u32(u32::MAX), "4294967295");
}

#[test]
fn names_are_base_dash_suffix() {
    assert_eq!(render_name(100, 0), "100-0");
    assert_eq!(render_name(3, 0), "3-0");
    assert_eq!(render_name(42, 17), "42-17");
}

#[test]
fn collision_increments_the_suffix() {
    let taken = vec![String::from("100-0")];
    let (suffix, name) = choose_name(100, &taken);
    assert_eq!(suffix, 1);
    assert_eq!(name, "100-1");
}

#[test]
fn first_free_suffix_is_chosen() {
    let taken = vec![
        String::from("100-0"),
        String::from("100-1"),
        String::from("100-3"),
        String::from("other"),
    ];
    let (suffix, name) = choose_name(100, &taken);
    assert_eq!(suffix, 2);
    assert_eq!(name, "100-2");
}

#[test]
fn fresh_tick_starts_at_suffix_zero() {
    let taken: Vec<String> = vec![];
    let (suffix, name) = choose_name(3, &taken);
    assert_eq!(suffix, 0);
    assert_eq!(name, "3-0");
}

#[test]
fn part_costs_follow_the_game_rules() {
    assert_eq!(tickbot::world::part_cost(PartKind::Move), 50);
    assert_eq!(tickbot::world::part_cost(PartKind::Carry), 50);
    assert_eq!(tickbot::world::part_cost(PartKind::Work), 100);
}

#[test]
fn the_worker_body_costs_250() {
    let body = worker_body();
    assert_eq!(
        body,
        vec![PartKind::Move, PartKind::Move, PartKind::Carry, PartKind::Work]
    );
    assert_eq!(body_cost(&body), 250);
}

#[test]
fn no_attempt_below_the_exact_threshold() {
    let spawn = SpawnView {
        name: String::from("Spawn1"),
        energy: 249,
        fresh_name_response: ReturnCode::Okay,
    };
    let out = run_spawn(&spawn, 100, &vec![]);
    assert!(out.attempt.is_none());
}

#[test]
fn an_attempt_at_the_exact_threshold() {
    let spawn = SpawnView {
        name: String::from("Spawn1"),
        energy: 250,
        fresh_name_response: ReturnCode::Okay,
    };
    let out = run_spawn(&spawn, 100, &vec![]);
    let attempt = out.attempt.expect("energy at the threshold must produce");
    assert_eq!(attempt.name, "100-0");
    assert_eq!(attempt.suffix, 0);
    assert_eq!(attempt.result, ReturnCode::Okay);
    assert!(!attempt.warned);
}

#[test]
fn a_refused_request_is_warned_about() {
    let spawn = SpawnView {
        name: String::from("Spawn1"),
        energy: 300,
        fresh_name_response: ReturnCode::Busy,
    };
    let out = run_spawn(&spawn, 100, &vec![]);
    let attempt = out.attempt.unwrap();
    assert_eq!(attempt.result, ReturnCode::Busy);
    assert!(attempt.warned);
}

#[test]
fn collisions_skip_names_in_use() {
    let taken = vec![String::from("100-0"), String::from("100-1")];
    let spawn = SpawnView {
        name: String::from("Spawn1"),
        energy: 1000,
        fresh_name_response: ReturnCode::Okay,
    };
    let out = run_spawn(&spawn, 100, &taken);
    let attempt = out.attempt.unwrap();
    assert_eq!(attempt.suffix, 2);
    assert_eq!(attempt.name, "100-2");
}
