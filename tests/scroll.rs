use hexerator_core::scroll::scroll_impl;
use hexerator_core::view::{HexData, View, ViewKind};

#[test]
fn test_scroll_impl_positive() {
    let mut whole;
    let mut pixel;
    let px_per_whole = 32;
    // Add 1
    whole = 0;
    pixel = 0;
    scroll_impl(&mut whole, &mut pixel, px_per_whole, 1);
    assert_eq!((whole, pixel), (0, 1));
    // Add 1000
    whole = 0;
    pixel = 0;
    scroll_impl(&mut whole, &mut pixel, px_per_whole, 1000);
    assert_eq!((whole, pixel), (31, 8));
    // Add 1 until we get to 1 whole
    whole = 0;
    pixel = 0;
    for _ in 0..32 {
        scroll_impl(&mut whole, &mut pixel, px_per_whole, 1);
    }
    assert_eq!((whole, pixel), (1, 0));
}

#[test]
fn test_scroll_impl_negative() {
    let mut whole;
    let mut pixel;
    let px_per_whole = 32;
    // Add -1000 (negative test)
    whole = 0;
    pixel = 0;
    scroll_impl(&mut whole, &mut pixel, px_per_whole, -1000);
    assert_eq!((whole, pixel), (0, -1000));
    // Make 10 wholes 0
    whole = 10;
    pixel = 0;
    scroll_impl(&mut whole, &mut pixel, px_per_whole, -320);
    assert_eq!((whole, pixel), (0, 0));
    // Make 10 wholes 0, scroll remainder
    whole = 10;
    pixel = 0;
    scroll_impl(&mut whole, &mut pixel, px_per_whole, -640);
    assert_eq!((whole, pixel), (0, -320));
}

fn scroll_all(deltas: &[i16]) -> (usize, i16) {
    let mut whole = 0usize;
    let mut pixel = 0i16;
    for &d in deltas {
        scroll_impl(&mut whole, &mut pixel, 32, d);
    }
    (whole, pixel)
}

#[test]
fn scroll_in_steps_ends_where_one_scroll_ends() {
    let steps = scroll_all(&[10, 20, 5, 40, -3]);
    let one = scroll_all(&[72]);
    assert_eq!(steps, one);
    assert_eq!(one, (2, 8));
    let back = scroll_all(&[-5, -7, -100]);
    assert_eq!(back, scroll_all(&[-112]));
    assert_eq!(back, (0, -112));
}

#[test]
fn scroll_back_into_a_cell_keeps_a_negative_remainder() {
    // One cell forward and a pixel back stays on the cell, a pixel before it.
    assert_eq!(scroll_all(&[32, -1]), (1, -1));
    assert_eq!(scroll_all(&[31]), (0, 31));
    // The absolute position is the same either way.
    assert_eq!(1 * 32 - 1, 31);
}

#[test]
fn view_scrolls_by_its_cell_size() {
    let mut view = View::new(ViewKind::Hex(HexData::default()), 0, 0, 200, 100);
    assert_eq!((view.col_w, view.row_h), (26, 14));
    view.scroll_y(30);
    assert_eq!((view.scroll_offset.row(), view.scroll_offset.pix_yoff()), (2, 2));
    view.scroll_x(-5);
    assert_eq!((view.scroll_offset.col(), view.scroll_offset.pix_xoff()), (0, -5));
    view.scroll_page_down();
    assert_eq!((view.scroll_offset.row, view.scroll_offset.pix_yoff), (9, 4));
    view.scroll_page_up();
    assert_eq!((view.scroll_offset.row, view.scroll_offset.pix_yoff), (3, -12));
    view.go_home();
    assert_eq!((view.scroll_offset.row, view.scroll_offset.pix_yoff), (0, -12));
    assert_eq!((view.scroll_offset.col, view.scroll_offset.pix_xoff), (0, -12));
}

#[test]
fn same_sign_scrolls_match_one_scroll() {
    assert_eq!(scroll_all(&[1, 31, 7, 100]), scroll_all(&[139]));
    assert_eq!(scroll_all(&[139]), (4, 11));
    assert_eq!(scroll_all(&[-1, -31, -7]), scroll_all(&[-39]));
    assert_eq!(scroll_all(&[-39]), (0, -39));
    // Mixed signs keep the position but not the split into cells.
    let mixed = scroll_all(&[40, -10]);
    assert_eq!(mixed, (1, -2));
    assert_eq!(mixed.0 as i32 * 32 + mixed.1 as i32, 30);
}
