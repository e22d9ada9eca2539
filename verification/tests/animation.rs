use rpg_engine::animation::{frame_column, get_frame_indices, holds_last_frame, AnimationState, Direction};

#[test]
fn frame_tables_match_the_sprite_sheet() {
    assert_eq!(get_frame_indices(AnimationState::Idle), vec![0, 1]);
    assert_eq!(get_frame_indices(AnimationState::Walk), vec![2, 3, 4]);
    assert_eq!(get_frame_indices(AnimationState::Sword), vec![5, 6, 7, 8]);
    assert_eq!(get_frame_indices(AnimationState::Bow), vec![9, 10, 11, 12]);
    assert_eq!(get_frame_indices(AnimationState::Staff), vec![13, 14, 15]);
    assert_eq!(get_frame_indices(AnimationState::Punch), vec![16, 17, 18]);
    assert_eq!(get_frame_indices(AnimationState::Hurt), vec![19, 20, 21]);
    assert_eq!(get_frame_indices(AnimationState::Death), vec![22, 23, 24]);
    assert_eq!(get_frame_indices(AnimationState::CarryIdle), vec![25]);
    assert_eq!(get_frame_indices(AnimationState::CarryWalk), vec![26, 25, 27, 25, 26]);
    assert_eq!(get_frame_indices(AnimationState::Jump), vec![28]);
}

#[test]
fn frame_column_holds_on_last_frame() {
    assert_eq!(frame_column(AnimationState::Walk, 0), 2);
    assert_eq!(frame_column(AnimationState::Walk, 2), 4);
    assert_eq!(frame_column(AnimationState::Walk, 17), 4);
    assert_eq!(frame_column(AnimationState::Jump, 3), 28);
}

#[test]
fn actions_hold_their_last_frame() {
    assert!(holds_last_frame(AnimationState::Death));
    assert!(holds_last_frame(AnimationState::Sword));
    assert!(holds_last_frame(AnimationState::Hurt));
    assert!(!holds_last_frame(AnimationState::Walk));
    assert!(!holds_last_frame(AnimationState::Idle));
    assert!(!holds_last_frame(AnimationState::CarryWalk));
}

#[test]
fn directions_are_rows_clockwise_from_south() {
    let all = [
        Direction::South,
        Direction::SouthEast,
        Direction::East,
        Direction::NorthEast,
        Direction::North,
        Direction::NorthWest,
        Direction::West,
        Direction::SouthWest,
    ];
    for (i, d) in all.iter().enumerate() {
        assert_eq!(d.index() as usize, i);
        assert_eq!(Direction::from_octant(i as i32), *d);
    }
    assert_eq!(Direction::from_octant(8), Direction::South);
    assert_eq!(Direction::from_octant(10), Direction::East);
    assert_eq!(Direction::from_octant(-3), Direction::South);
}
