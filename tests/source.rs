use hexerator_core::region::Region;
use hexerator_core::search::find_all;
use hexerator_core::memmap_accessor::SourceAccessEnum;
use hexerator_core::slices::{bounded_from, byte_at, range_of};
use hexerator_core::source_access::{
    names_stdin, OpenOutcome, SingleBufferAccessor, SourceAttributes,
};

#[test]
fn find_reports_every_match() {
    let src = SingleBufferAccessor::from_vec(vec![0x61, 0x62, 0x61, 0x62]);
    assert_eq!(src.find_iter(&[0x61, 0x62]), vec![0, 2]);
    // Overlapping matches all count.
    assert_eq!(find_all(b"aaab", b"aa"), vec![0, 1]);
    assert_eq!(find_all(b"abc", b"x"), Vec::<usize>::new());
    assert_eq!(find_all(b"ab", b""), vec![0, 1, 2]);
    assert_eq!(find_all(b"", b"a"), Vec::<usize>::new());
}

#[test]
fn buffer_range_access() {
    let mut src = SingleBufferAccessor::from_vec(vec![1, 2, 3, 4, 5]);
    assert_eq!(src.source_len(), 5);
    assert_eq!(src.get_range(1..3), Some(&[2u8, 3][..]));
    assert_eq!(src.get_range(4..6), None);
    assert_eq!(src.slice_range(0..2), &[1u8, 2][..]);
    assert_eq!(src.slice_range_inclusive(Region::new(3, 4)), &[4u8, 5][..]);
    assert_eq!(src.slice_range_from_upper_bound(1, 2), &[2u8, 3][..]);
    // At most the bound: fewer where the buffer ends first.
    assert_eq!(src.get_range_from_upper_bound(4, 2), Some(&[5u8][..]));
    assert_eq!(src.get_range_from_upper_bound(3, 2), Some(&[4u8, 5][..]));
    assert_eq!(src.get_range_from_upper_bound(6, 1), None);
    assert_eq!(src.slice_range_from_upper_bound(2, 100), &[3u8, 4, 5][..]);
    assert_eq!(src.iter(), vec![1, 2, 3, 4, 5]);
    assert_eq!(src.index_byte(4), 5);
    *src.index_byte_mut(0) = 9;
    if let Some(r) = src.get_range_mut(2..4) {
        r[0] = 7;
    }
    assert!(src.get_range_mut(3..9).is_none());
    assert_eq!(src.get_range(0..5), Some(&[9u8, 2, 7, 4, 5][..]));
    src.downcast_to_single_buffer_vec().unwrap().push(6);
    assert_eq!(src.source_len(), 6);
    src.make_empty_and_free();
    assert_eq!(src.source_len(), 0);
}

#[test]
fn open_outcomes() {
    let mut src = SingleBufferAccessor::from_vec(vec![1, 2]);
    let mut source = None;
    assert!(!src.open_file_from_args(OpenOutcome::NoFile, &mut source));
    assert!(!src.open_file_from_args(OpenOutcome::Failed, &mut source));
    assert_eq!(src.source_len(), 2);
    assert!(source.is_none());
    assert!(src.open_file_from_args(OpenOutcome::Stdin, &mut source));
    assert_eq!(source, Some(SourceAttributes::stdin()));
    assert!(!source.unwrap().seekable);
    let file = OpenOutcome::File { contents: Some(vec![5, 6, 7]), stream: false, read_only: true };
    assert!(src.open_file_from_args(file, &mut source));
    assert_eq!(src.source_len(), 3);
    assert!(!source.unwrap().permissions.write);
    let streamed = OpenOutcome::File { contents: None, stream: true, read_only: false };
    assert!(src.open_file_from_args(streamed, &mut source));
    assert_eq!(src.source_len(), 0);
    assert!(source.unwrap().stream && source.unwrap().permissions.write);
}

#[test]
fn slice_helpers_are_exact() {
    let b: &[u8] = &[1, 2, 3];
    assert_eq!(range_of(b, 1, 3), Some(&[2u8, 3][..]));
    assert_eq!(range_of(b, 2, 1), None);
    assert_eq!(range_of(b, 0, 4), None);
    assert_eq!(bounded_from(b, 1, 1), Some(&[2u8][..]));
    assert_eq!(bounded_from(b, 3, 5), Some(&[][..]));
    assert_eq!(bounded_from(b, 4, 0), None);
    assert_eq!(byte_at(b, 2), Some(3));
    assert_eq!(byte_at(b, 3), None);
}

#[test]
fn source_enum_reads_and_writes() {
    let mut src = SourceAccessEnum::SingleBuffer(SingleBufferAccessor::from_vec(vec![1, 2, 3, 4]));
    assert_eq!(src.get_range_inclusive(Region::new(1, 2)), Some(&[2u8, 3][..]));
    assert_eq!(src.get_range_inclusive(Region::new(3, 4)), None);
    assert_eq!(src.get_range_inclusive(Region::new(0, usize::MAX)), None);
    assert_eq!(src.get_range_from_upper_bound(2, 9), Some(&[3u8, 4][..]));
    assert_eq!(src.index_byte(3), Some(4));
    assert_eq!(src.index_byte(4), None);
    src.set_byte(0, 7);
    if let Some(r) = src.get_range_mut(1..3) {
        r[1] = 8;
    }
    assert_eq!(src.iter(), vec![7, 2, 8, 4]);
    assert_eq!(src.source_len(), 4);
    src.make_empty_and_free();
    assert_eq!(src.source_len(), 0);
}

#[test]
fn stdin_is_named_by_a_dash() {
    assert!(names_stdin(b"-"));
    assert!(!names_stdin(b"--"));
    assert!(!names_stdin(b"file"));
    assert!(!names_stdin(b""));
}
