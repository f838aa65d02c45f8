use dire::source_info;
use dire::source_info::SourceRange;

#[test]
fn single_char_range_covers_one_position() {
    let r = SourceRange::from_single_char(7);
    assert_eq!(r.start, 7);
    assert_eq!(r.end, 8);
}

#[test]
fn concat_reaches_from_earliest_start_to_latest_end() {
    let a = SourceRange { start: 4, end: 9 };
    let b = SourceRange { start: 2, end: 6 };
    let r = source_info::concat(a, b);
    assert_eq!((r.start, r.end), (2, 9));
    let r = source_info::concat(b, a);
    assert_eq!((r.start, r.end), (2, 9));
}

#[test]
fn default_range_is_the_unknown_position() {
    let r = SourceRange::default();
    assert_eq!(r.start, usize::MAX);
    assert_eq!(r.end, usize::MAX);
}
