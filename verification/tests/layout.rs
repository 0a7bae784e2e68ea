use contract_whist::layout::{card_area, centered_shares, find_ideal_area, split_equally, Area};

fn area(x: u16, y: u16, width: u16, height: u16) -> Area {
    Area { x, y, width, height }
}

#[test]
fn the_ideal_area_is_the_largest_square_of_threes() {
    assert_eq!(find_ideal_area(0, 0), (0, 0));
    assert_eq!(find_ideal_area(2, 9), (0, 0));
    assert_eq!(find_ideal_area(3, 3), (3, 3));
    assert_eq!(find_ideal_area(10, 7), (6, 6));
    assert_eq!(find_ideal_area(7, 10), (6, 6));
    assert_eq!(find_ideal_area(100, 30), (30, 30));
    assert_eq!(find_ideal_area(u16::MAX, u16::MAX), (65535, 65535));
    assert_eq!(find_ideal_area(u16::MAX - 1, u16::MAX), (65532, 65532));
}

#[test]
fn a_card_sits_in_the_middle_of_what_is_on_the_screen() {
    let screen = area(0, 0, 80, 24);
    assert_eq!(card_area(area(10, 2, 20, 11), screen), Some(area(15, 3, 9, 9)));
    assert_eq!(card_area(area(0, 0, 3, 3), screen), Some(area(0, 0, 3, 3)));
    assert_eq!(card_area(area(0, 0, 2, 2), screen), Some(area(1, 1, 0, 0)));
}

#[test]
fn a_card_is_cut_to_the_screen_before_it_is_placed() {
    let screen = area(0, 0, 80, 24);
    assert_eq!(card_area(area(70, 20, 30, 30), screen), Some(area(73, 20, 3, 3)));
    assert_eq!(card_area(area(5, 5, 10, 10), area(8, 0, 100, 9)), Some(area(10, 5, 3, 3)));
}

#[test]
fn a_card_off_the_screen_has_no_place() {
    let screen = area(0, 0, 80, 24);
    assert_eq!(card_area(area(80, 0, 10, 10), screen), None);
    assert_eq!(card_area(area(0, 24, 10, 10), screen), None);
    assert_eq!(card_area(area(3, 3, 0, 5), screen), None);
    assert_eq!(card_area(area(3, 3, 5, 5), area(0, 0, 0, 0)), None);
}

#[test]
fn rectangles_at_the_far_edge_do_not_wrap_around() {
    let far = area(u16::MAX - 2, u16::MAX - 2, 10, 10);
    let all = area(0, 0, u16::MAX, u16::MAX);
    assert_eq!(card_area(far, all), Some(area(u16::MAX - 1, u16::MAX - 1, 0, 0)));
    assert_eq!(card_area(area(u16::MAX - 6, 0, 100, 6), all), Some(area(u16::MAX - 6, 0, 6, 6)));
}

#[test]
fn cards_side_by_side_get_equal_shares() {
    assert_eq!(split_equally(0), Vec::<(u32, u32)>::new());
    assert_eq!(split_equally(1), vec![(1, 1)]);
    assert_eq!(split_equally(4), vec![(1, 4), (1, 4), (1, 4), (1, 4)]);
}

#[test]
fn what_is_left_beside_the_middle_is_halved() {
    assert_eq!(centered_shares(50), (25, 50, 25));
    assert_eq!(centered_shares(60), (20, 60, 20));
    assert_eq!(centered_shares(25), (37, 25, 37));
    assert_eq!(centered_shares(100), (0, 100, 0));
    assert_eq!(centered_shares(0), (50, 0, 50));
}
