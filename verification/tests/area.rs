use grid_game::{Area, COLS, ROWS};

fn area(width: i32, height: i32) -> Area {
    Area::new(width, height).expect("positive sides")
}

#[test]
fn grid_is_five_by_five() {
    assert_eq!(ROWS, 5);
    assert_eq!(COLS, 5);
}

#[test]
fn area_keeps_its_sides() {
    let a = area(800, 600);
    assert_eq!(a.width(), 800);
    assert_eq!(a.height(), 600);
}

#[test]
fn area_needs_positive_sides() {
    assert_eq!(Area::new(0, 10), None);
    assert_eq!(Area::new(10, 0), None);
    assert_eq!(Area::new(0, 0), None);
    assert_eq!(Area::new(-1, 10), None);
    assert_eq!(Area::new(10, -1), None);
    assert_eq!(Area::new(i32::MIN, i32::MIN), None);
    assert!(Area::new(1, 1).is_some());
    assert!(Area::new(i32::MAX, i32::MAX).is_some());
}

#[test]
fn locate_finds_the_corners() {
    let a = area(500, 300);
    assert_eq!(a.locate(0, 0), Some((0, 0)));
    assert_eq!(a.locate(499, 0), Some((0, 4)));
    assert_eq!(a.locate(0, 299), Some((4, 0)));
    assert_eq!(a.locate(499, 299), Some((4, 4)));
}

#[test]
fn locate_changes_cell_at_the_cell_border() {
    let a = area(500, 300);
    assert_eq!(a.locate(99, 59), Some((0, 0)));
    assert_eq!(a.locate(100, 59), Some((0, 1)));
    assert_eq!(a.locate(99, 60), Some((1, 0)));
    assert_eq!(a.locate(100, 60), Some((1, 1)));
    assert_eq!(a.locate(250, 150), Some((2, 2)));
    assert_eq!(a.locate(399, 239), Some((3, 3)));
    assert_eq!(a.locate(400, 240), Some((4, 4)));
}

#[test]
fn locate_scales_before_it_divides() {
    // Seven pixels over five columns: column = 5 * x / 7.
    // Three pixels over five rows: row = 5 * y / 3.
    let a = area(7, 3);
    let columns: Vec<usize> = (0..7).map(|x| a.locate(x, 0).unwrap().1).collect();
    assert_eq!(columns, vec![0, 0, 1, 2, 2, 3, 4]);
    let rows: Vec<usize> = (0..3).map(|y| a.locate(0, y).unwrap().0).collect();
    assert_eq!(rows, vec![0, 1, 3]);
}

#[test]
fn locate_rejects_pixels_outside_the_area() {
    let a = area(500, 300);
    assert_eq!(a.locate(500, 0), None);
    assert_eq!(a.locate(0, 300), None);
    assert_eq!(a.locate(500, 300), None);
    assert_eq!(a.locate(501, 10), None);
    assert_eq!(a.locate(10, 1000), None);
    assert_eq!(a.locate(usize::MAX, 0), None);
    assert_eq!(a.locate(0, usize::MAX), None);
    assert_eq!(a.locate(usize::MAX, usize::MAX), None);
}

#[test]
fn locate_on_a_single_pixel() {
    let a = area(1, 1);
    assert_eq!(a.locate(0, 0), Some((0, 0)));
    assert_eq!(a.locate(1, 0), None);
    assert_eq!(a.locate(0, 1), None);
}

#[test]
fn locate_on_the_largest_area() {
    let a = area(i32::MAX, i32::MAX);
    let last = (i32::MAX - 1) as usize;
    assert_eq!(a.locate(last, last), Some((4, 4)));
    assert_eq!(a.locate(0, last), Some((4, 0)));
    assert_eq!(a.locate(last / 2, 0), Some((0, 2)));
    assert_eq!(a.locate(last + 1, 0), None);
}
