use metamusic::layout::{center_area, Area};

fn area(x: u16, y: u16, width: u16, height: u16) -> Area {
    Area { x, y, width, height }
}

#[test]
fn a_margin_of_one_cell_is_left_on_each_side() {
    assert_eq!(center_area(area(0, 0, 10, 10)), area(1, 1, 8, 8));
    assert_eq!(center_area(area(5, 7, 40, 20)), area(6, 8, 38, 18));
    assert_eq!(center_area(area(3, 4, 3, 5)), area(4, 5, 1, 3));
}

#[test]
fn small_areas_shrink_to_nothing() {
    assert_eq!(center_area(area(2, 2, 2, 2)), area(3, 3, 0, 0));
    assert_eq!(center_area(area(2, 2, 1, 1)), area(2, 2, 0, 0));
    assert_eq!(center_area(area(2, 2, 0, 0)), area(2, 2, 0, 0));
    assert_eq!(center_area(area(0, 9, 1, 2)), area(0, 10, 0, 0));
}

#[test]
fn the_largest_area_is_handled() {
    assert_eq!(center_area(area(0, 0, u16::MAX, u16::MAX)), area(1, 1, u16::MAX - 2, u16::MAX - 2));
    assert_eq!(center_area(area(u16::MAX, u16::MAX, 0, 0)), area(u16::MAX, u16::MAX, 0, 0));
    assert_eq!(center_area(area(u16::MAX - 2, 0, 2, 0)), area(u16::MAX - 1, 0, 0, 0));
}

#[test]
fn a_panel_may_reach_beyond_the_last_coordinate_as_long_as_the_artwork_s_corner_does_not() {
    assert_eq!(center_area(area(65000, 65000, 1000, 1000)), area(65001, 65001, 998, 998));
    assert_eq!(center_area(area(u16::MAX, 0, 1, 1)), area(u16::MAX, 0, 0, 0));
    assert_eq!(center_area(area(u16::MAX - 1, 0, u16::MAX, 5)), area(u16::MAX, 1, u16::MAX - 2, 3));
}
