use hexerator_core::hex_ui::{ContextMenuData, HexUi, InteractMode};
use hexerator_core::app::View as GridView;
use hexerator_core::perspective::Perspective;
use hexerator_core::region::Region;
use hexerator_core::view::{HexData, TextData, TextKind, View, ViewKind, ViewportRect};

fn persp(begin: usize, end: usize, cols: usize, flip: bool) -> Perspective {
    Perspective { region: Region::new(begin, end), cols, flip_row_order: flip }
}

#[test]
fn offset_round_trips_through_row_col() {
    for flip in [false, true] {
        let p = persp(10, 32, 5, flip);
        for off in 10..=32 {
            let (row, col) = p.row_col_of_byte_offset(off);
            assert_eq!(p.byte_offset_of_row_col(row, col), off);
            assert!(p.row_col_within_bound(row, col));
        }
    }
}

#[test]
fn row_col_of_offset_in_grid() {
    let p = persp(10, 32, 5, false);
    assert_eq!(p.row_col_of_byte_offset(10), (0, 0));
    assert_eq!(p.row_col_of_byte_offset(17), (1, 2));
    assert_eq!(p.row_col_of_byte_offset(32), (4, 2));
    assert_eq!(p.last_row_idx(), 4);
    assert_eq!(p.last_col_idx(), 2);
    // Offsets before the region count as its first byte.
    assert_eq!(p.row_col_of_byte_offset(3), (0, 0));
}

#[test]
fn flipped_rows_count_from_the_bottom() {
    let p = persp(10, 32, 5, true);
    assert_eq!(p.row_col_of_byte_offset(10), (4, 0));
    assert_eq!(p.row_col_of_byte_offset(32), (0, 2));
    assert_eq!(p.byte_offset_of_row_col(0, 0), 30);
    assert_eq!(p.byte_offset_of_row_col(4, 4), 14);
    // A displayed row past the last stands before the region.
    assert_eq!(p.byte_offset_of_row_col(7, 1), 10);
    assert!(!p.row_col_within_bound(5, 0));
}

#[test]
fn partial_last_row_is_out_of_bounds() {
    let p = persp(10, 32, 5, false);
    assert!(p.row_col_within_bound(4, 2));
    assert!(!p.row_col_within_bound(4, 3));
    assert!(!p.row_col_within_bound(5, 0));
    assert!(!p.row_col_within_bound(0, 5));
    // Cells past the end are held to the last byte.
    assert_eq!(p.byte_offset_of_row_col(4, 3), 32);
    assert_eq!(p.byte_offset_of_row_col(usize::MAX, usize::MAX), 32);
}

#[test]
fn grid_view_offset_row_col() {
    let v = GridView { start_offset: 0, rows: 10, cols: 16 };
    assert_eq!(v.offset_row_col(35), (2, 3));
}

#[test]
fn hit_test_maps_pixels_to_cells() {
    // Block cells are 4x4 pixels.
    let view = View::new(ViewKind::Block, 100, 50, 40, 40);
    let p = persp(0, 99, 10, false);
    assert_eq!(view.row_col_offset_of_pos(101, 51, &p), Some((0, 0)));
    assert_eq!(view.row_col_offset_of_pos(109, 55, &p), Some((1, 2)));
    // The top and left edges themselves give no cell.
    assert_eq!(view.row_col_offset_of_pos(100, 55, &p), None);
    // Outside the rectangle.
    assert_eq!(view.row_col_offset_of_pos(99, 55, &p), None);
    assert_eq!(view.row_col_offset_of_pos(141, 55, &p), None);
    // Past the perspective's columns.
    assert_eq!(view.row_col_offset_of_pos(139, 55, &p), Some((1, 9)));
    let narrow = persp(0, 99, 5, false);
    assert_eq!(view.row_col_offset_of_pos(125, 55, &narrow), None);
    let flipped = persp(0, 99, 10, true);
    // The view holds 10 rows; row 1 from the top counts as row 9.
    assert_eq!(view.row_col_offset_of_pos(109, 55, &flipped), Some((9, 2)));
}

#[test]
fn view_navigation_over_a_perspective() {
    let mut view = View::new(ViewKind::Block, 0, 0, 40, 40);
    let p = persp(0, 999, 10, false);
    view.center_on_offset(555, &p);
    // Row 55, col 5, then half a view (20 px, 5 cells) back on each axis.
    assert_eq!((view.scroll_offset.row, view.scroll_offset.pix_yoff), (50, 0));
    assert_eq!((view.scroll_offset.col, view.scroll_offset.pix_xoff), (0, 0));
    let o = view.offsets(&p);
    assert_eq!((o.row, o.col, o.byte), (50, 0, 500));
    view.scroll_to_byte_offset(123, &p, false, true);
    assert_eq!((view.scroll_offset.row, view.scroll_offset.col), (12, 0));
    view.scroll_to_end(&p);
    assert_eq!((view.scroll_offset.row, view.scroll_offset.pix_yoff), (90, 12));
    assert_eq!((view.scroll_offset.col, view.scroll_offset.pix_xoff), (0, 12));
    assert_eq!(view.rows(), 10);
    assert_eq!(view.bytes_per_page(&p), 100);
}

#[test]
fn sync_rescales_pixel_offsets() {
    let mut view = View::new(ViewKind::Block, 0, 0, 40, 40);
    view.sync_to(7, 7, 3, -9, 14, 26);
    assert_eq!((view.scroll_offset.row, view.scroll_offset.col), (7, 3));
    // 7 px of a 14 px row is 2 px of a 4 px row; -9 px of 26 is -1 px of 4.
    assert_eq!(view.scroll_offset.pix_yoff, 2);
    assert_eq!(view.scroll_offset.pix_xoff, -1);
    view.sync_to(0, 5, 0, 5, 0, 0);
    assert_eq!((view.scroll_offset.pix_yoff, view.scroll_offset.pix_xoff), (0, 0));
}

#[test]
fn kinds_set_cell_sizes_and_edit_buffers() {
    let dec = View::new(ViewKind::Dec(HexData { edit_buf: Default::default(), font_size: 14 }), 0, 0, 1, 1);
    assert_eq!((dec.col_w, dec.row_h, dec.glyph_count()), (36, 14, 3));
    let text = View::new(ViewKind::Text(TextData::new(12, 0)), 0, 0, 1, 1);
    assert_eq!((text.col_w, text.row_h, text.glyph_count()), (12, 1, 1));
    match &dec.kind {
        ViewKind::Dec(d) => assert_eq!(d.edit_buf.buf.len(), 3),
        _ => panic!("kind changed"),
    }
    let z = View::zeroed();
    assert_eq!(z.viewport_rect, ViewportRect { x: 0, y: 0, w: 0, h: 0 });
    assert!(!z.active);
    assert_eq!(TextKind::Ascii.name(), "ascii");
    assert_eq!(TextKind::Utf16Le.name(), "utf-16 le");
    assert_eq!(TextKind::Utf16Be.bytes_needed(), 2);
    assert_eq!(ViewportRect { x: 1, y: 1, w: 2, h: 2 }.relative_offset_of_pos(3, 2), Some((2, 1)));
    assert!(!ViewportRect { x: 1, y: 1, w: 2, h: 2 }.contains_pos(4, 2));
}

#[test]
fn selection_spans_both_points() {
    let mut ui = HexUi::default();
    assert_eq!(ui.interact_mode, InteractMode::View);
    assert!(ui.scissor_views);
    assert_eq!(ui.selection(), None);
    ui.select_a = Some(9);
    assert_eq!(ui.selection(), None);
    ui.select_b = Some(4);
    assert_eq!(ui.selection(), Some(Region { begin: 4, end: 9 }));
    ui.select_b = Some(12);
    assert_eq!(ui.selection(), Some(Region { begin: 9, end: 12 }));
    let menu = ContextMenuData::ViewByte { view: 1, byte_off: 5 };
    assert!(matches!(menu, ContextMenuData::ViewByte { byte_off: 5, .. }));
}
