use hexerator_core::app::{App, CommitError, Preferences, SaveError};
use hexerator_core::damage::DamageTracker;
use hexerator_core::edit_buffer::EditBuffer;
use hexerator_core::hex_conv::{merge_hex_halves, parse_dec_u8};
use hexerator_core::memmap_accessor::SourceAccessEnum;
use hexerator_core::region::Region;
use hexerator_core::source_access::SourceAttributes;
use hexerator_core::view::{HexData, TextData, View, ViewKind};

fn prefs(quick_edit: bool, sticky_edit: bool) -> Preferences {
    Preferences { quick_edit, sticky_edit, auto_save: false }
}

fn byte_at(app: &App, idx: usize) -> u8 {
    app.data.index_byte(idx).unwrap()
}

#[test]
fn hex_commit_writes_typed_byte_and_advances() {
    let mut app = App::new(vec![0x3F, 0x00], None, prefs(false, false), None, None);
    let mut view = View::new(ViewKind::Hex(HexData::default()), 0, 0, 100, 100);
    assert_eq!(view.handle_text_entered('a', &mut app), None);
    assert_eq!(byte_at(&app, 0), 0x3F);
    assert_eq!(view.handle_text_entered('5', &mut app), Some(Ok(true)));
    assert_eq!(byte_at(&app, 0), 0xA5);
    assert_eq!(app.cursor, 1);
    assert_eq!(app.dirty_region.region(), Some(Region::single(0)));
}

#[test]
fn sticky_edit_keeps_the_cursor() {
    let mut app = App::new(vec![0x3F, 0x00], None, prefs(false, true), None, None);
    let mut view = View::new(ViewKind::Hex(HexData::default()), 0, 0, 100, 100);
    view.handle_text_entered('a', &mut app);
    assert_eq!(view.handle_text_entered('5', &mut app), Some(Ok(true)));
    assert_eq!(byte_at(&app, 0), 0xA5);
    assert_eq!(app.cursor, 0);
}

#[test]
fn quick_edit_commits_one_digit() {
    let mut app = App::new(vec![0x3F, 0x00], None, prefs(true, false), None, None);
    let mut view = View::new(ViewKind::Hex(HexData::default()), 0, 0, 100, 100);
    assert_eq!(view.handle_text_entered('7', &mut app), Some(Ok(true)));
    // Only the high digit was replaced.
    assert_eq!(byte_at(&app, 0), 0x7F);
    assert_eq!(app.cursor, 1);
}

#[test]
fn invalid_characters_are_ignored() {
    let mut app = App::new(vec![0x3F], None, prefs(false, false), None, None);
    let mut view = View::new(ViewKind::Hex(HexData::default()), 0, 0, 100, 100);
    assert_eq!(view.handle_text_entered('g', &mut app), None);
    assert_eq!(view.handle_text_entered('A', &mut app), None);
    assert!(!view.char_valid('x'));
    let mut block = View::new(ViewKind::Block, 0, 0, 10, 10);
    assert_eq!(block.handle_text_entered('1', &mut app), None);
    assert_eq!(byte_at(&app, 0), 0x3F);
}

#[test]
fn decimal_commit_and_overflow() {
    let mut app = App::new(vec![7, 8, 9], None, prefs(false, false), None, None);
    let dec = || ViewKind::Dec(HexData { edit_buf: EditBuffer::default(), font_size: 14 });
    let mut view = View::new(dec(), 0, 0, 100, 100);
    view.handle_text_entered('2', &mut app);
    view.handle_text_entered('5', &mut app);
    assert_eq!(view.handle_text_entered('5', &mut app), Some(Ok(true)));
    assert_eq!(byte_at(&app, 0), 255);
    assert_eq!(app.cursor, 1);
    view.handle_text_entered('3', &mut app);
    view.handle_text_entered('0', &mut app);
    assert_eq!(view.handle_text_entered('0', &mut app), Some(Err(CommitError::InvalidValue)));
    assert_eq!(byte_at(&app, 1), 8);
    assert_eq!(app.cursor, 2);
}

#[test]
fn text_commit_stores_the_character() {
    let mut app = App::new(vec![0, 0], None, prefs(false, false), None, None);
    let mut view = View::new(ViewKind::Text(TextData::new(14, 16)), 0, 0, 100, 100);
    assert_eq!(view.handle_text_entered('z', &mut app), Some(Ok(true)));
    assert_eq!(byte_at(&app, 0), b'z');
    assert_eq!(view.handle_text_entered('é', &mut app), None);
}

#[test]
fn cancel_drops_typed_digits() {
    let mut app = App::new(vec![0x3F], None, prefs(false, false), None, None);
    let mut view = View::new(ViewKind::Hex(HexData::default()), 0, 0, 100, 100);
    view.handle_text_entered('a', &mut app);
    view.cancel_editing();
    match &view.kind {
        ViewKind::Hex(h) => {
            assert_eq!(h.edit_buf.cursor, 0);
            assert!(!h.edit_buf.dirty);
        }
        _ => panic!("kind changed"),
    }
    assert_eq!(byte_at(&app, 0), 0x3F);
}

#[test]
fn damage_tracker_widens_and_clears() {
    let mut t = DamageTracker::new();
    t.widen(5, None);
    assert_eq!(t.region(), Some(Region { begin: 5, end: 5 }));
    t.widen(3, Some(10));
    assert_eq!(t.region(), Some(Region { begin: 3, end: 10 }));
    t.widen(20, None);
    assert_eq!(t.region(), Some(Region { begin: 3, end: 20 }));
    t.clear();
    assert_eq!(t.region(), None);
}

#[test]
fn read_only_source_refuses_writes() {
    let attrs = SourceAttributes::file(false, true);
    let mut app = App::new(vec![1, 2, 3, 4], Some(attrs), prefs(false, false), None, None);
    let before = app.data.source_len();
    assert_eq!(app.write_range(1, &[9, 9]), Err(CommitError::ReadOnly));
    assert_eq!(app.write_byte(0, 9), Err(CommitError::ReadOnly));
    assert_eq!(app.data.source_len(), before);
    assert_eq!(app.data.get_range(0..4), Some(&[1u8, 2, 3, 4][..]));
    assert_eq!(app.save_plan(), Err(SaveError::ReadOnly));
}

#[test]
fn write_range_and_save_plan() {
    let attrs = SourceAttributes::file(false, false);
    let mut app = App::new(vec![1, 2, 3, 4, 5, 6], Some(attrs), prefs(false, false), Some(100), None);
    assert_eq!(app.write_range(5, &[9, 9]), Err(CommitError::OutOfBounds));
    let plan = app.save_plan().unwrap();
    assert_eq!((plan.seek, plan.begin, plan.end), (100, 0, 6));
    assert_eq!(app.write_range(2, &[9, 8]), Ok(()));
    assert_eq!(app.data.get_range(0..6), Some(&[1u8, 2, 9, 8, 5, 6][..]));
    assert_eq!(app.write_byte(4, 7), Ok(()));
    let plan = app.save_plan().unwrap();
    assert_eq!((plan.seek, plan.begin, plan.end), (100, 2, 5));
    app.mark_saved();
    assert_eq!(app.dirty_region.region(), None);
    let scratch = App::new(vec![1], None, prefs(false, false), None, None);
    assert_eq!(scratch.save_plan(), Err(SaveError::NoFile));
}

#[test]
fn reload_and_close() {
    let mut app = App::new(vec![1, 2, 3], None, prefs(false, false), None, None);
    app.write_byte(1, 0).unwrap();
    app.reload(vec![4, 5]);
    assert_eq!(app.data.source_len(), 2);
    assert_eq!(app.dirty_region.region(), None);
    app.close_file();
    assert_eq!(app.data.source_len(), 0);
    assert!(app.source.is_none());
    assert!(matches!(app.data, SourceAccessEnum::SingleBuffer(_)));
}

#[test]
fn hex_and_decimal_conversions() {
    assert_eq!(merge_hex_halves(b'A', b'5'), Some(0xA5));
    assert_eq!(merge_hex_halves(b'f', b'0'), Some(0xF0));
    assert_eq!(merge_hex_halves(b'G', b'0'), None);
    assert_eq!(parse_dec_u8(b"007"), Some(7));
    assert_eq!(parse_dec_u8(b"255"), Some(255));
    assert_eq!(parse_dec_u8(b"256"), None);
    assert_eq!(parse_dec_u8(b"9999"), None);
    assert_eq!(parse_dec_u8(b""), None);
    assert_eq!(parse_dec_u8(b"1a"), None);
    assert_eq!(hexerator_core::hex_conv::byte_hex_text(0x3F), b"3F".to_vec());
    assert_eq!(hexerator_core::hex_conv::byte_dec_text(7), b"007".to_vec());
}

#[test]
fn jump_offset_places_cursor_and_grid() {
    let app = App::new(Vec::new(), None, prefs(false, false), None, Some(1000));
    assert_eq!(app.cursor, 1000);
    // Offset 1000 in 48 columns is row 20, col 40; cells are 26x16 pixels.
    assert_eq!(app.grid.view_x, 40 * 26 - 200);
    assert_eq!(app.grid.view_y, 20 * 16 - 200);
    assert_eq!(app.data.source_len(), 0);
    assert!(app.dirty_region.region().is_none());
    let plain = App::new(Vec::new(), None, prefs(false, false), None, None);
    assert_eq!((plain.cursor, plain.grid.view_x, plain.grid.view_y), (0, 0, -46));
    assert_eq!(plain.grid.view.cols, 48);
}

#[test]
fn grid_round_trips_and_column_changes() {
    let mut app = App::new(vec![0; 4096], None, prefs(false, false), None, None);
    app.grid.col_change_lock_x = true;
    app.set_view_to_byte_offset(1000);
    let o = app.view_offsets();
    assert_eq!((o.row, o.col, o.byte), (20, 40, 1000));
    app.inc_cols();
    assert_eq!(app.grid.view.cols, 49);
    assert_eq!(app.view_offsets().byte, 1000);
    app.double_cols();
    assert_eq!(app.grid.view.cols, 98);
    assert_eq!(app.view_offsets().byte, 1000);
    app.halve_cols();
    app.dec_cols();
    assert_eq!(app.grid.view.cols, 48);
    assert_eq!(app.view_offsets().byte, 1000);
    app.grid.view_x = -500;
    app.grid.view_y = -500;
    app.clamp_view();
    assert_eq!((app.grid.view_x, app.grid.view_y), (-100, -100));
    app.grid.view.cols = 16;
    assert_eq!(app.ascii_display_x_offset(), 16 * 26 + 12);
    assert_eq!(app.block_display_x_offset(), (16 * 26 + 12) * 2);
}

#[test]
fn zeroed_view_is_a_clean_hex_view() {
    let z = View::zeroed();
    match &z.kind {
        ViewKind::Hex(d) => {
            assert_eq!(d.font_size, 14);
            assert!(d.edit_buf.buf.is_empty());
            assert!(!d.edit_buf.dirty);
        }
        _ => panic!("not hex"),
    }
    assert_eq!((z.col_w, z.row_h, z.bytes_per_block), (0, 0, 0));
}
