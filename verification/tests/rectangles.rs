use rust_book::rectangles::{area, area2, Rectangle};

#[test]
fn test_area() {
    let actual = area(2, 3);
    assert_eq!(actual, 6);
}

#[test]
fn larger_can_hold_smaller() {
    let larger = Rectangle { width: 8, height: 7 };
    let smaller = Rectangle { width: 5, height: 1 };

    assert!(larger.can_hold(&smaller));
}

#[test]
fn areas_agree_in_all_three_forms() {
    assert_eq!(area(30, 50), 1500);
    assert_eq!(area2((20, 40)), 800);
    assert_eq!(Rectangle { width: 33, height: 45 }.area(), 1485);
    assert_eq!(area(65535, 65537), u32::MAX);
    assert_eq!(area(0, u32::MAX), 0);
}

#[test]
fn can_hold_needs_both_sides() {
    let rect = Rectangle { width: 33, height: 45 };
    assert!(rect.can_hold(&Rectangle { width: 25, height: 40 }));
    assert!(!rect.can_hold(&Rectangle { width: 50, height: 30 }));
    assert!(!rect.can_hold(&Rectangle { width: 30, height: 50 }));
    assert!(rect.can_hold(&Rectangle { width: 33, height: 45 }));
}

#[test]
fn square_has_equal_sides() {
    let square = Rectangle::square(12);
    assert_eq!(square.width, 12);
    assert_eq!(square.height, 12);
    assert_eq!(square.area(), 144);
}
