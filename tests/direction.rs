use roots::direction::{Direction, TurnDirection};

const ALL: [Direction; 8] = [
    Direction::North,
    Direction::NorthEast,
    Direction::East,
    Direction::SouthEast,
    Direction::South,
    Direction::SouthWest,
    Direction::West,
    Direction::NorthWest,
];

#[test]
fn turn_right_then_left_returns() {
    for d in ALL {
        assert_eq!(d.turn(TurnDirection::Right).turn(TurnDirection::Left), d);
        assert_eq!(d.turn(TurnDirection::Left).turn(TurnDirection::Right), d);
    }
}

#[test]
fn eight_turns_make_a_circle() {
    for d in ALL {
        for t in [TurnDirection::Left, TurnDirection::Right] {
            let mut e = d;
            for _ in 0..8 {
                e = e.turn(t);
            }
            assert_eq!(e, d);
        }
    }
}

#[test]
fn turns_are_clockwise_neighbours() {
    assert_eq!(Direction::North.turn(TurnDirection::Right), Direction::NorthEast);
    assert_eq!(Direction::North.turn(TurnDirection::Left), Direction::NorthWest);
    assert_eq!(Direction::West.turn(TurnDirection::Right), Direction::NorthWest);
    assert_eq!(Direction::South.turn(TurnDirection::Left), Direction::SouthEast);
    assert_eq!(Direction::NorthWest.turn(TurnDirection::Right), Direction::North);
}

#[test]
fn heading_counts() {
    assert_eq!(ALL.iter().filter(|d| d.is_moving_north()).count(), 3);
    assert_eq!(ALL.iter().filter(|d| d.is_moving_west()).count(), 2);
    assert_eq!(ALL.iter().filter(|d| d.is_moving_east()).count(), 2);
    assert_eq!(ALL.iter().filter(|d| d.is_moving_horizontally()).count(), 2);
}

#[test]
fn heading_members() {
    assert!(Direction::NorthWest.is_moving_north());
    assert!(!Direction::East.is_moving_north());
    assert!(Direction::NorthWest.is_moving_west());
    assert!(!Direction::SouthWest.is_moving_west());
    assert!(Direction::NorthEast.is_moving_east());
    assert!(!Direction::SouthEast.is_moving_east());
    assert!(Direction::West.is_moving_horizontally());
    assert!(!Direction::NorthEast.is_moving_horizontally());
}
