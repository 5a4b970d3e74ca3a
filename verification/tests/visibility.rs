use fennec::visibility::VisibilityRange;

#[test]
fn test_initial_range_is_correct() {
    let range = VisibilityRange::new()
        .with_total_items(10)
        .with_max_visible(5)
        .with_index(0);

    assert_eq!(range.min_index_within(), 0);
    assert_eq!(range.max_index_within(), 4);
}

#[test]
fn test_range_end_moves_correctly_when_moved_forward_within_range() {
    let range = VisibilityRange::new()
        .with_total_items(10)
        .with_max_visible(5)
        .with_index(0);

    let range = range.moved_forward(2);

    assert_eq!(range.min_index_within(), 2);
    assert_eq!(range.max_index_within(), 6);
}

#[test]
fn test_range_end_moves_correctly_when_moved_forward_beyond_range() {
    let range = VisibilityRange::new()
        .with_total_items(10)
        .with_max_visible(5)
        .with_index(0);

    let range = range.moved_forward(20);

    assert_eq!(range.min_index_within(), 9);
    assert_eq!(range.max_index_within(), 9);
}

#[test]
fn test_range_end_moves_correctly_when_moved_backward_within_range() {
    let range = VisibilityRange::new()
        .with_total_items(10)
        .with_max_visible(5)
        .with_index(5);

    let range = range.moved_backward(2);

    assert_eq!(range.min_index_within(), 3);
    assert_eq!(range.max_index_within(), 7);
}

#[test]
fn test_range_end_moves_correctly_when_moved_backward_beyond_range() {
    let range = VisibilityRange::new()
        .with_total_items(10)
        .with_max_visible(5)
        .with_index(5);

    let range = range.moved_backward(20);

    assert_eq!(range.min_index_within(), 0);
    assert_eq!(range.max_index_within(), 4);
}

#[test]
fn with_index_stops_at_the_last_item() {
    let range = VisibilityRange::new().with_total_items(10).with_max_visible(5);

    assert_eq!(range.with_index(9).min_index_within(), 9);
    assert_eq!(range.with_index(10).min_index_within(), 9);
    assert_eq!(range.with_index(usize::MAX).min_index_within(), 9);
}

#[test]
fn with_index_on_an_empty_range_is_zero() {
    let range = VisibilityRange::new().with_max_visible(5).with_index(3);

    assert_eq!(range.min_index_within(), 0);
    assert_eq!(range.max_index_within(), 0);
    assert!(!range.includes(0));
}

#[test]
fn includes_covers_the_window_and_nothing_else() {
    let range = VisibilityRange::new()
        .with_total_items(10)
        .with_max_visible(5)
        .with_index(3);

    for index in 0..12 {
        assert_eq!(range.includes(index), (3..8).contains(&index));
    }
}

#[test]
fn window_is_cut_off_at_the_end_of_the_sequence() {
    let range = VisibilityRange::new()
        .with_total_items(10)
        .with_max_visible(5)
        .with_index(8);

    assert_eq!(range.max_index_within(), 9);
    assert!(range.includes(9));
    assert!(!range.includes(10));
}

#[test]
fn window_bounds_are_less_than_max_visible_apart() {
    for total in 0..12usize {
        for visible in 1..6usize {
            for index in 0..12usize {
                let range = VisibilityRange::new()
                    .with_total_items(total)
                    .with_max_visible(visible)
                    .with_index(index);
                let low = range.min_index_within();
                let high = range.max_index_within();

                assert!(low <= high);
                assert!(high - low < visible);
                if total == 0 {
                    assert_eq!((low, high), (0, 0));
                } else {
                    assert!(high < total);
                }
            }
        }
    }
}

#[test]
fn huge_windows_do_not_overflow() {
    let range = VisibilityRange::new()
        .with_total_items(usize::MAX)
        .with_max_visible(usize::MAX)
        .with_index(usize::MAX - 1);

    assert_eq!(range.min_index_within(), usize::MAX - 1);
    assert_eq!(range.max_index_within(), usize::MAX - 1);
    assert_eq!(range.moved_forward(usize::MAX).min_index_within(), usize::MAX - 1);
}
