use oblivion_ui::geometry::{distance, extent, offset, scaled};

#[test]
fn offset_adds_inside_the_range() {
    assert_eq!(offset(5, 7), 12);
    assert_eq!(offset(5, -7), -2);
    assert_eq!(offset(0, 0), 0);
}

#[test]
fn offset_stops_at_the_ends() {
    assert_eq!(offset(i32::MAX, 1), i32::MAX);
    assert_eq!(offset(i32::MAX - 3, 10), i32::MAX);
    assert_eq!(offset(i32::MIN, -1), i32::MIN);
    assert_eq!(offset(i32::MIN + 3, -10), i32::MIN);
    assert_eq!(offset(i32::MAX, i32::MIN), -1);
}

#[test]
fn distance_subtracts_and_stops_at_the_ends() {
    assert_eq!(distance(10, 3), 7);
    assert_eq!(distance(3, 10), -7);
    assert_eq!(distance(i32::MIN, 1), i32::MIN);
    assert_eq!(distance(i32::MAX, -1), i32::MAX);
    assert_eq!(distance(0, i32::MIN), i32::MAX);
}

#[test]
fn scaled_multiplies_and_stops_at_the_ends() {
    assert_eq!(scaled(3, 40), 120);
    assert_eq!(scaled(0, 40), 0);
    assert_eq!(scaled(5, -3), -15);
    assert_eq!(scaled(usize::MAX, 2), i32::MAX);
    assert_eq!(scaled(usize::MAX, -2), i32::MIN);
    assert_eq!(scaled(usize::MAX, 0), 0);
    assert_eq!(scaled(2, i32::MAX), i32::MAX);
}

#[test]
fn extent_of_a_negative_length_is_empty() {
    assert_eq!(extent(-4), 0);
    assert_eq!(extent(i32::MIN), 0);
    assert_eq!(extent(0), 0);
    assert_eq!(extent(9), 9);
    assert_eq!(extent(i32::MAX), 2147483647);
}

#[test]
fn stepping_reaches_what_one_jump_reaches() {
    let mut position = 2147483000;
    for _ in 0..20 {
        position = offset(position, 40);
    }
    assert_eq!(position, i32::MAX);
    let mut position = 100;
    for _ in 0..20 {
        position = offset(position, 40);
    }
    assert_eq!(position, offset(100, scaled(20, 40)));
    assert_eq!(position, 900);
}
