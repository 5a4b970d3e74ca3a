use fennec::cursors::{Cursor, VisibleCursor};
use fennec::visibility::VisibilityRange;

fn default_visibility_range() -> VisibilityRange {
    VisibilityRange::new()
        .with_max_visible(40)
        .with_total_items(100)
        .with_index(20)
}

#[test]
fn new_within_stays_within_the_lower_range() {
    let range = default_visibility_range();

    let cursor = Cursor::new_within(&range, 0);

    assert_eq!(cursor.index(), 20);
}

#[test]
fn new_within_stays_within_the_upper_range() {
    let range = default_visibility_range();

    let cursor = Cursor::new_within(&range, 100);

    assert_eq!(cursor.index(), 59);
}

#[test]
fn moved_forward_within_stays_within_upper_range() {
    let range = default_visibility_range();

    let cursor = Cursor::new_within(&range, 0).moved_forward_within(&range, 100);

    assert_eq!(cursor.index(), 59);
}

#[test]
fn moved_backward_within_stays_within_upper_range() {
    let range = default_visibility_range();

    let cursor = Cursor::new_within(&range, 100).moved_backward_within(&range, 500);

    assert_eq!(cursor.index(), 20);
}

#[test]
fn new_within_keeps_a_visible_target() {
    let range = default_visibility_range();

    for target in 20..60 {
        assert_eq!(Cursor::new_within(&range, target).index(), target);
    }
}

#[test]
fn new_within_is_idempotent() {
    let range = default_visibility_range();

    for target in [0, 19, 20, 35, 59, 60, 1000, usize::MAX] {
        let once = Cursor::new_within(&range, target);
        let twice = Cursor::new_within(&range, once.index());
        assert_eq!(once.index(), twice.index());
    }
}

#[test]
fn cursor_on_an_empty_range_is_at_zero() {
    let range = VisibilityRange::new().with_max_visible(40);

    assert_eq!(Cursor::new_within(&range, 7).index(), 0);
    assert_eq!(range.into_cursor_at(7).index(), 0);
}

#[test]
fn moving_forward_by_the_largest_amount_stops_at_the_ceiling() {
    let range = default_visibility_range();

    let cursor = Cursor::new_within(&range, 30).moved_forward_within(&range, usize::MAX);

    assert_eq!(cursor.index(), 59);
}

#[test]
fn visible_cursor_follows_the_window() {
    let visible = VisibleCursor::new(default_visibility_range(), 25);
    assert_eq!(visible.index(), 25);

    let scrolled = visible.with_range_index_moved_forward(10);
    assert_eq!(scrolled.index(), 30);
    assert!(scrolled.visible_range_includes(30));
    assert!(scrolled.visible_range_includes(69));
    assert!(!scrolled.visible_range_includes(70));
    assert!(!scrolled.visible_range_includes(29));

    let back = scrolled.with_range_index_moved_backward(30);
    assert_eq!(back.index(), 30);
    assert!(back.visible_range_includes(0));

    assert_eq!(back.with_cursor_index_moved_forward(100).index(), 39);
    assert_eq!(back.with_cursor_index_moved_backward(100).index(), 0);
    assert_eq!(back.with_index(12).index(), 12);
    assert_eq!(back.with_index_after(12).index(), 13);
}

#[test]
fn visible_cursor_shrinks_with_the_sequence() {
    let visible = VisibleCursor::new(default_visibility_range(), 59);

    let shrunk = visible.with_total_items(10);

    assert_eq!(shrunk.index(), 9);
    assert!(shrunk.visible_range_includes(9));
    assert!(!shrunk.visible_range_includes(10));

    let emptied = shrunk.with_total_items(0);
    assert_eq!(emptied.index(), 0);
    assert!(!emptied.visible_range_includes(0));
}
