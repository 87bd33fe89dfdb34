use mnk_game::coordinate::Coordinate;
use mnk_game::coordinate::Direction;
use mnk_game::detector::Axis;
use std::ops::Add;
use std::ops::Neg;

fn at(row: usize, col: usize) -> Coordinate {
    Coordinate { row, col }
}

fn by(drow: i32, dcol: i32) -> Direction {
    Direction { drow, dcol }
}

#[test]
fn add_moves_by_the_step() {
    assert_eq!(at(2, 3).add(by(1, 0)), Some(at(3, 3)));
    assert_eq!(at(2, 3).add(by(0, 1)), Some(at(2, 4)));
    assert_eq!(at(2, 3).add(by(1, 1)), Some(at(3, 4)));
    assert_eq!(at(2, 3).add(by(1, -1)), Some(at(3, 2)));
    assert_eq!(at(2, 3).add(by(-1, -1)), Some(at(1, 2)));
    assert_eq!(at(2, 3).add(by(-2, -3)), Some(at(0, 0)));
    assert_eq!(at(2, 3).add(by(0, 0)), Some(at(2, 3)));
    assert_eq!(at(10, 20).add(by(7, -9)), Some(at(17, 11)));
    assert_eq!(at(2, 3) + by(1, -1), Some(at(3, 2)));
}

#[test]
fn add_refuses_to_go_negative() {
    assert_eq!(at(0, 0).add(by(-1, 0)), None);
    assert_eq!(at(0, 0).add(by(0, -1)), None);
    assert_eq!(at(0, 5).add(by(-1, -1)), None);
    assert_eq!(at(5, 0).add(by(1, -1)), None);
    assert_eq!(at(2, 3).add(by(-3, 0)), None);
    assert_eq!(at(2, 3).add(by(0, -4)), None);
    assert_eq!(at(2, 3).add(by(i32::MIN, 0)), None);
    assert_eq!(at(0, 0) + by(-1, -1), None);
}

#[test]
fn add_refuses_to_wrap_around() {
    assert_eq!(at(usize::MAX, 0).add(by(1, 0)), None);
    assert_eq!(at(0, usize::MAX).add(by(0, 1)), None);
    assert_eq!(at(usize::MAX - 1, 0).add(by(2, 0)), None);
    assert_eq!(at(usize::MAX - 1, 0).add(by(1, 0)), Some(at(usize::MAX, 0)));
    assert_eq!(at(usize::MAX, usize::MAX).add(by(-1, -1)), Some(at(usize::MAX - 1, usize::MAX - 1)));
    assert_eq!(at(usize::MAX, 7).add(by(0, i32::MAX)), Some(at(usize::MAX, 7 + i32::MAX as usize)));
}

#[test]
fn add_reaches_as_far_as_a_step_can() {
    let far = 1usize << 31;
    assert_eq!(at(far, far).add(by(i32::MIN, i32::MIN)), Some(at(0, 0)));
    assert_eq!(at(far - 1, far).add(by(i32::MIN, i32::MIN)), None);
    assert_eq!(at(0, 0).add(by(i32::MAX, i32::MAX)), Some(at(far - 1, far - 1)));
}

#[test]
fn neg_turns_a_step_around() {
    assert_eq!(by(0, 1).neg(), by(0, -1));
    assert_eq!(by(1, -1).neg(), by(-1, 1));
    assert_eq!(by(0, 0).neg(), by(0, 0));
    assert_eq!(by(i32::MAX, -i32::MAX).neg(), by(-i32::MAX, i32::MAX));
    assert_eq!(-by(3, -4), by(-3, 4));
    assert_eq!(-(-by(1, 1)), by(1, 1));
}

#[test]
fn step_and_step_back_return() {
    for dir in [by(0, 1), by(1, 0), by(1, 1), by(1, -1)] {
        let moved = at(4, 4).add(dir).unwrap();
        assert_eq!(moved.add(dir.neg()), Some(at(4, 4)));
    }
}

#[test]
fn the_four_axes_point_right_and_down() {
    assert_eq!(Axis::Horizontal.direction(), by(0, 1));
    assert_eq!(Axis::Vertical.direction(), by(1, 0));
    assert_eq!(Axis::Diagonal.direction(), by(1, 1));
    assert_eq!(Axis::AntiDiagonal.direction(), by(1, -1));
}
