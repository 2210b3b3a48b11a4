use snake_core::timing::animation_progress;
use snake_core::timing::nudge;
use snake_core::timing::speed_up;
use snake_core::timing::BASE_MOVE_INTERVAL;
use snake_core::timing::MIN_MOVE_INTERVAL;
use snake_core::timing::PROGRESS_SCALE;
use snake_core::Direction;
use snake_core::FrameInput;
use snake_core::Position;

const ALL: [Direction; 4] = [
    Direction::Up,
    Direction::Down,
    Direction::Left,
    Direction::Right,
];

#[test]
fn opposite_pairs() {
    assert!(Direction::Up.is_opposite(Direction::Down));
    assert!(Direction::Down.is_opposite(Direction::Up));
    assert!(Direction::Left.is_opposite(Direction::Right));
    assert!(Direction::Right.is_opposite(Direction::Left));
    let mut pairs = 0;
    for a in ALL {
        for b in ALL {
            if a.is_opposite(b) {
                pairs += 1;
                assert!(b.is_opposite(a));
                assert_ne!(a, b);
            }
        }
    }
    assert_eq!(pairs, 4);
}

#[test]
fn turn_ignores_a_reversal_and_takes_anything_else() {
    assert_eq!(Direction::Right.turn(Direction::Left), Direction::Right);
    assert_eq!(Direction::Left.turn(Direction::Right), Direction::Left);
    assert_eq!(Direction::Up.turn(Direction::Down), Direction::Up);
    assert_eq!(Direction::Down.turn(Direction::Up), Direction::Down);
    for a in ALL {
        for b in ALL {
            let expected = if a.is_opposite(b) { a } else { b };
            assert_eq!(a.turn(b), expected);
        }
    }
    assert_eq!(Direction::Right.turn(Direction::Right), Direction::Right);
    assert_eq!(Direction::Right.turn(Direction::Up), Direction::Up);
}

#[test]
fn step_moves_one_cell() {
    let p = Position { x: 12, y: 10 };
    assert_eq!(p.step(Direction::Up), Position { x: 12, y: 9 });
    assert_eq!(p.step(Direction::Down), Position { x: 12, y: 11 });
    assert_eq!(p.step(Direction::Left), Position { x: 11, y: 10 });
    assert_eq!(p.step(Direction::Right), Position { x: 13, y: 10 });
    let origin = Position { x: 0, y: 0 };
    assert_eq!(origin.step(Direction::Left), Position { x: -1, y: 0 });
    assert_eq!(origin.step(Direction::Up), Position { x: 0, y: -1 });
}

#[test]
fn direction_keys_have_a_fixed_priority() {
    let none = FrameInput::default();
    assert_eq!(none.direction(), None);
    let all = FrameInput {
        up: true,
        down: true,
        left: true,
        right: true,
        ..none
    };
    assert_eq!(all.direction(), Some(Direction::Up));
    let no_up = FrameInput { up: false, ..all };
    assert_eq!(no_up.direction(), Some(Direction::Down));
    let sideways = FrameInput {
        left: true,
        right: true,
        ..none
    };
    assert_eq!(sideways.direction(), Some(Direction::Left));
    let right = FrameInput { right: true, ..none };
    assert_eq!(right.direction(), Some(Direction::Right));
    let modes = FrameInput {
        confirm: true,
        cancel: true,
        ..none
    };
    assert_eq!(modes.direction(), None);
}

#[test]
fn speed_up_takes_three_hundredths_off() {
    assert_eq!(BASE_MOVE_INTERVAL, 120_000);
    assert_eq!(MIN_MOVE_INTERVAL, 40_000);
    assert_eq!(speed_up(120_000), 116_400);
    assert_eq!(speed_up(116_400), 112_908);
    assert_eq!(speed_up(112_908), 109_520);
    assert_eq!(speed_up(100_000), 97_000);
}

#[test]
fn speed_up_stops_at_the_shortest_interval() {
    assert_eq!(speed_up(41_000), 40_000);
    assert_eq!(speed_up(41_237), 40_000);
    assert_eq!(speed_up(41_238), 40_000);
    assert_eq!(speed_up(41_239), 40_001);
    assert_eq!(speed_up(40_001), 40_000);
    assert_eq!(speed_up(40_000), 40_000);
    assert_eq!(speed_up(39_000), 39_000);
    assert_eq!(speed_up(0), 0);
    assert_eq!(speed_up(u64::MAX), 17_893_341_751_498_265_066);
}

#[test]
fn interval_never_grows_and_never_passes_the_floor() {
    let mut interval = BASE_MOVE_INTERVAL;
    let mut reached_floor_after = 0;
    for growth in 1..=500 {
        let next = speed_up(interval);
        assert!(next <= interval);
        assert!(next >= MIN_MOVE_INTERVAL);
        if next == MIN_MOVE_INTERVAL && reached_floor_after == 0 {
            reached_floor_after = growth;
        }
        interval = next;
    }
    assert_eq!(interval, MIN_MOVE_INTERVAL);
    assert_eq!(reached_floor_after, 37);
}

#[test]
fn animation_progress_is_the_elapsed_share() {
    assert_eq!(PROGRESS_SCALE, 1000);
    assert_eq!(animation_progress(0, 120_000), 0);
    assert_eq!(animation_progress(-1, 120_000), 0);
    assert_eq!(animation_progress(i128::MIN, 120_000), 0);
    assert_eq!(animation_progress(1, 120_000), 0);
    assert_eq!(animation_progress(120, 120_000), 1);
    assert_eq!(animation_progress(60_000, 120_000), 500);
    assert_eq!(animation_progress(100_000, 120_000), 833);
    assert_eq!(animation_progress(119_999, 120_000), 999);
    assert_eq!(animation_progress(120_000, 120_000), 1000);
    assert_eq!(animation_progress(5_000_000, 120_000), 1000);
    assert_eq!(animation_progress(i128::MAX, 40_000), 1000);
    assert_eq!(animation_progress(1, 0), 1000);
    assert_eq!(animation_progress(0, 0), 0);
    assert_eq!(animation_progress(u64::MAX as i128 - 1, u64::MAX), 999);
}

#[test]
fn nudge_goes_four_fifths_of_an_interval_back() {
    assert_eq!(nudge(1_000_000, 120_000), 904_000);
    assert_eq!(nudge(0, 120_000), -96_000);
    assert_eq!(nudge(50_000, 40_000), 18_000);
    assert_eq!(nudge(10, 7), 5);
    assert_eq!(nudge(u64::MAX, 0), u64::MAX as i128);
    assert_eq!(
        nudge(0, u64::MAX),
        -(u64::MAX as i128 * 4 / 5)
    );
}
