use tickbot::world::{clamp, classify_move_result, is_enterable, LookItem, Pos, ReturnCode};

#[test]
fn adjacency_is_chebyshev_distance_one() {
    let a = Pos { x: 10, y: 10 };
    assert!(a.is_near_to(Pos { x: 10, y: 10 }));
    assert!(a.is_near_to(Pos { x: 11, y: 9 }));
    assert!(a.is_near_to(Pos { x: 9, y: 11 }));
    assert!(!a.is_near_to(Pos { x: 12, y: 10 }));
    assert!(!a.is_near_to(Pos { x: 10, y: 8 }));
}

#[test]
fn walls_and_structures_block_a_tile() {
    assert!(is_enterable(&vec![]));
    assert!(is_enterable(&vec![LookItem::TerrainPlain, LookItem::Other]));
    assert!(is_enterable(&vec![LookItem::TerrainSwamp]));
    assert!(!is_enterable(&vec![
        LookItem::TerrainPlain,
        LookItem::Structure
    ]));
    assert!(!is_enterable(&vec![LookItem::TerrainWall]));
}

#[test]
fn movement_outcomes_are_classified() {
    assert!(!classify_move_result(ReturnCode::Okay));
    assert!(!classify_move_result(ReturnCode::Tired));
    // An unreachable target is recoverable but still logged.
    assert!(classify_move_result(ReturnCode::NoPath));
    assert!(classify_move_result(ReturnCode::NotOwner));
    assert!(classify_move_result(ReturnCode::InvalidTarget));
}

#[test]
fn clamp_pins_values_into_the_interval() {
    assert_eq!(clamp(5, 1, 48), 5);
    assert_eq!(clamp(0, 1, 48), 1);
    assert_eq!(clamp(49, 1, 48), 48);
    assert_eq!(clamp(-7, -3, 3), -3);
    assert_eq!(clamp(3, 3, 3), 3);
}
