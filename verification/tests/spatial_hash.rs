use snake_core::Position;
use snake_core::SpatialHash;

fn cell(x: i32, y: i32) -> Position {
    Position { x, y }
}

#[test]
fn empty_index_contains_nothing() {
    let index = SpatialHash::new(1);
    assert!(!index.contains(cell(0, 0)));
    assert!(!index.contains(cell(12, 10)));
}

#[test]
fn inserted_cell_is_found() {
    let mut index = SpatialHash::new(1);
    index.insert(cell(12, 10));
    assert!(index.contains(cell(12, 10)));
    assert!(!index.contains(cell(10, 12)));
    assert!(!index.contains(cell(12, 11)));
    assert!(!index.contains(cell(13, 10)));
}

#[test]
fn inserting_twice_is_the_same_as_once() {
    let mut index = SpatialHash::new(1);
    index.insert(cell(3, 4));
    index.insert(cell(3, 4));
    assert!(index.contains(cell(3, 4)));
    index.clear();
    assert!(!index.contains(cell(3, 4)));
}

#[test]
fn clear_removes_every_cell() {
    let mut index = SpatialHash::new(1);
    for x in 0..25 {
        index.insert(cell(x, 7));
    }
    index.clear();
    for x in 0..25 {
        assert!(!index.contains(cell(x, 7)));
    }
    index.insert(cell(1, 1));
    assert!(index.contains(cell(1, 1)));
}

#[test]
fn cells_of_one_bucket_are_told_apart() {
    let mut index = SpatialHash::new(4);
    index.insert(cell(1, 1));
    index.insert(cell(-1, -1));
    assert!(index.contains(cell(1, 1)));
    assert!(index.contains(cell(-1, -1)));
    assert!(!index.contains(cell(0, 0)));
    assert!(!index.contains(cell(-1, 1)));
    assert!(!index.contains(cell(3, 3)));
    assert!(!index.contains(cell(5, 1)));
}

#[test]
fn negative_bucket_size_works() {
    let mut index = SpatialHash::new(-3);
    index.insert(cell(7, -8));
    index.insert(cell(i32::MIN, i32::MAX));
    assert!(index.contains(cell(7, -8)));
    assert!(index.contains(cell(i32::MIN, i32::MAX)));
    assert!(!index.contains(cell(-8, 7)));
    assert!(!index.contains(cell(8, -8)));
}

#[test]
fn extreme_coordinates_are_kept_apart() {
    let mut index = SpatialHash::new(1);
    index.insert(cell(i32::MIN, i32::MIN));
    index.insert(cell(i32::MAX, i32::MAX));
    index.insert(cell(0, -1));
    assert!(index.contains(cell(i32::MIN, i32::MIN)));
    assert!(index.contains(cell(i32::MAX, i32::MAX)));
    assert!(index.contains(cell(0, -1)));
    assert!(!index.contains(cell(i32::MIN, i32::MAX)));
    assert!(!index.contains(cell(i32::MAX, i32::MIN)));
    assert!(!index.contains(cell(-1, 0)));
    assert!(!index.contains(cell(-1, -1)));
}

#[test]
fn index_agrees_with_a_plain_list() {
    for size in [1, 2, 5, 64] {
        let mut index = SpatialHash::new(size);
        let mut listed: Vec<Position> = Vec::new();
        let mut seed: u32 = 99;
        for _ in 0..300 {
            seed = seed.wrapping_mul(1664525).wrapping_add(1013904223);
            let x = (seed >> 8) as i32 % 20 - 10;
            seed = seed.wrapping_mul(1664525).wrapping_add(1013904223);
            let y = (seed >> 8) as i32 % 20 - 10;
            index.insert(cell(x, y));
            listed.push(cell(x, y));
        }
        for x in -12..12 {
            for y in -12..12 {
                assert_eq!(index.contains(cell(x, y)), listed.contains(&cell(x, y)));
            }
        }
    }
}
