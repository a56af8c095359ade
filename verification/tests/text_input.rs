use deft_winit::text_input::{
    ComparisonResult, LayoutDirection, TextPositionState, TextRangeState,
};

fn position(offset: i32) -> TextPositionState {
    TextPositionState::from_offset(offset)
}

#[test]
fn positions_compare_by_offset() {
    assert_eq!(position(1).compare_position(&position(2)), ComparisonResult::Ascending);
    assert_eq!(position(2).compare_position(&position(1)), ComparisonResult::Descending);
    assert_eq!(position(2).compare_position(&position(2)), ComparisonResult::Same);
    assert_eq!(position(3).offset_to(&position(10)), 7);
    assert_eq!(position(10).offset_to(&position(3)), -7);
    assert_eq!(position(i32::MIN).offset_to(&position(i32::MAX)), 4_294_967_295);
    assert_eq!(position(i32::MAX).offset_to(&position(i32::MIN)), -4_294_967_295);
}

#[test]
fn a_position_moves_within_the_text_only() {
    assert_eq!(position(2).position_from_offset(3, 5), Some(position(5)));
    assert_eq!(position(2).position_from_offset(4, 5), None);
    assert_eq!(position(2).position_from_offset(-2, 5), Some(position(0)));
    assert_eq!(position(2).position_from_offset(-3, 5), None);
    assert_eq!(position(0).position_from_offset(0, 0), Some(position(0)));
    assert_eq!(position(i32::MAX).position_from_offset(i32::MAX, i32::MAX), None);
    assert_eq!(position(i32::MIN).position_from_offset(i32::MIN, i32::MAX), None);
}

#[test]
fn a_position_moved_in_a_direction_stays_within_the_text() {
    assert_eq!(position(2).position_in_direction(LayoutDirection::Right, 2, 10), position(4));
    assert_eq!(position(2).position_in_direction(LayoutDirection::Right, 20, 10), position(10));
    assert_eq!(position(2).position_in_direction(LayoutDirection::Left, 1, 10), position(1));
    assert_eq!(position(2).position_in_direction(LayoutDirection::Left, 5, 10), position(0));
    assert_eq!(position(2).position_in_direction(LayoutDirection::Up, 5, 10), position(2));
    assert_eq!(position(12).position_in_direction(LayoutDirection::Down, 5, 10), position(10));
    assert_eq!(position(-4).position_in_direction(LayoutDirection::Up, 5, 10), position(0));
    assert_eq!(
        position(i32::MAX).position_in_direction(LayoutDirection::Right, i32::MAX, i32::MAX),
        position(i32::MAX)
    );
    assert_eq!(
        position(i32::MIN).position_in_direction(LayoutDirection::Left, i32::MAX, 3),
        position(0)
    );
}

#[test]
fn a_range_spans_two_positions() {
    assert_eq!(
        TextRangeState::between(&position(3), &position(7)),
        Some(TextRangeState { location: 3, length: 4 })
    );
    assert_eq!(
        TextRangeState::between(&position(7), &position(3)),
        Some(TextRangeState { location: 3, length: 4 })
    );
    assert_eq!(
        TextRangeState::between(&position(5), &position(5)),
        Some(TextRangeState { location: 5, length: 0 })
    );
    assert_eq!(TextRangeState::between(&position(-1), &position(5)), None);
    assert_eq!(TextRangeState::between(&position(5), &position(-1)), None);
    assert!(TextRangeState::from_start_len(4, 0).is_empty());
    assert!(!TextRangeState::from_start_len(4, 1).is_empty());
}

#[test]
fn the_farthest_position_of_a_range() {
    let range = TextRangeState::from_start_len(4, 6);
    assert_eq!(range.farthest_position(LayoutDirection::Left), Some(position(4)));
    assert_eq!(range.farthest_position(LayoutDirection::Up), Some(position(4)));
    assert_eq!(range.farthest_position(LayoutDirection::Right), Some(position(10)));
    assert_eq!(range.farthest_position(LayoutDirection::Down), Some(position(10)));
    let not_found = TextRangeState::from_start_len(usize::MAX, 0);
    assert_eq!(not_found.farthest_position(LayoutDirection::Left), None);
    assert_eq!(not_found.farthest_position(LayoutDirection::Right), None);
    let long = TextRangeState::from_start_len(i32::MAX as usize, 1);
    assert_eq!(long.farthest_position(LayoutDirection::Left), Some(position(i32::MAX)));
    assert_eq!(long.farthest_position(LayoutDirection::Right), None);
}
