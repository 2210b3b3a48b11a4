use snake_core::Direction;
use snake_core::InputBuffer;

fn drain(buffer: &mut InputBuffer) -> Vec<Direction> {
    let mut out = Vec::new();
    while let Some(d) = buffer.get_next_command() {
        out.push(d);
    }
    out
}

#[test]
fn new_buffer_is_empty() {
    let mut buffer = InputBuffer::new(3);
    assert!(buffer.is_empty());
    assert_eq!(buffer.len(), 0);
    assert_eq!(buffer.get_next_command(), None);
}

#[test]
fn commands_come_out_oldest_first() {
    let mut buffer = InputBuffer::new(3);
    buffer.add_command(Direction::Up);
    buffer.add_command(Direction::Left);
    buffer.add_command(Direction::Down);
    assert_eq!(buffer.len(), 3);
    assert_eq!(buffer.get_next_command(), Some(Direction::Up));
    assert_eq!(buffer.get_next_command(), Some(Direction::Left));
    assert_eq!(buffer.get_next_command(), Some(Direction::Down));
    assert_eq!(buffer.get_next_command(), None);
    assert!(buffer.is_empty());
}

#[test]
fn full_buffer_drops_its_oldest_command() {
    let mut buffer = InputBuffer::new(3);
    buffer.add_command(Direction::Up);
    buffer.add_command(Direction::Left);
    buffer.add_command(Direction::Down);
    buffer.add_command(Direction::Right);
    assert_eq!(buffer.len(), 3);
    assert_eq!(
        drain(&mut buffer),
        vec![Direction::Left, Direction::Down, Direction::Right]
    );
}

#[test]
fn repeated_command_is_stored_once() {
    let mut buffer = InputBuffer::new(3);
    buffer.add_command(Direction::Up);
    buffer.add_command(Direction::Up);
    buffer.add_command(Direction::Up);
    assert_eq!(buffer.len(), 1);
    assert_eq!(drain(&mut buffer), vec![Direction::Up]);
}

#[test]
fn only_back_to_back_repeats_collapse() {
    let mut buffer = InputBuffer::new(3);
    buffer.add_command(Direction::Up);
    buffer.add_command(Direction::Left);
    buffer.add_command(Direction::Up);
    assert_eq!(
        drain(&mut buffer),
        vec![Direction::Up, Direction::Left, Direction::Up]
    );
}

#[test]
fn repeat_offered_to_a_full_buffer_still_drops_the_oldest() {
    let mut buffer = InputBuffer::new(3);
    buffer.add_command(Direction::Up);
    buffer.add_command(Direction::Left);
    buffer.add_command(Direction::Down);
    buffer.add_command(Direction::Down);
    assert_eq!(drain(&mut buffer), vec![Direction::Left, Direction::Down]);
}

#[test]
fn buffer_of_one_keeps_the_newest_command() {
    let mut buffer = InputBuffer::new(1);
    buffer.add_command(Direction::Up);
    buffer.add_command(Direction::Left);
    assert_eq!(buffer.len(), 1);
    buffer.add_command(Direction::Left);
    assert_eq!(buffer.len(), 1);
    assert_eq!(drain(&mut buffer), vec![Direction::Left]);
}

#[test]
fn buffer_with_limit_zero_holds_one_command() {
    let mut buffer = InputBuffer::new(0);
    buffer.add_command(Direction::Up);
    assert_eq!(buffer.len(), 1);
    buffer.add_command(Direction::Right);
    assert_eq!(buffer.len(), 1);
    assert_eq!(drain(&mut buffer), vec![Direction::Right]);
}

#[test]
fn clear_empties_the_buffer() {
    let mut buffer = InputBuffer::new(3);
    buffer.add_command(Direction::Up);
    buffer.add_command(Direction::Right);
    buffer.clear();
    assert!(buffer.is_empty());
    assert_eq!(buffer.get_next_command(), None);
    buffer.add_command(Direction::Down);
    assert_eq!(drain(&mut buffer), vec![Direction::Down]);
}

#[test]
fn length_stays_within_the_limit_and_neighbours_differ() {
    let all = [
        Direction::Up,
        Direction::Down,
        Direction::Left,
        Direction::Right,
    ];
    for limit in 1..5usize {
        let mut buffer = InputBuffer::new(limit);
        let mut seed: u32 = 12345;
        let mut shadow: Vec<Direction> = Vec::new();
        for step in 0..400 {
            seed = seed.wrapping_mul(1664525).wrapping_add(1013904223);
            let d = all[(seed >> 24) as usize % 4];
            if step % 7 == 6 {
                let expected = if shadow.is_empty() {
                    None
                } else {
                    Some(shadow.remove(0))
                };
                assert_eq!(buffer.get_next_command(), expected);
            } else {
                if shadow.len() >= limit {
                    shadow.remove(0);
                }
                if shadow.last() != Some(&d) {
                    shadow.push(d);
                }
                buffer.add_command(d);
            }
            assert!(buffer.len() <= limit);
            assert_eq!(buffer.len(), shadow.len());
            for pair in shadow.windows(2) {
                assert_ne!(pair[0], pair[1]);
            }
        }
        assert_eq!(drain(&mut buffer), shadow);
    }
}
