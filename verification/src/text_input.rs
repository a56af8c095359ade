//! Positions and ranges in the text of the on-screen keyboard's input session.
//!
//! A position is an offset into the text counted in code units; the text field's
//! protocol asks for positions to be moved, compared and spanned.

use vstd::prelude::*;

verus! {

/// A position in the text.
#[derive(Clone, Copy, Debug, PartialEq, Eq, Structural)]
pub struct TextPositionState {
    pub offset: i32,
}

/// A range of the text by its first code unit and its length.
#[derive(Clone, Copy, Debug, PartialEq, Eq, Structural)]
pub struct TextRangeState {
    pub location: usize,
    pub length: usize,
}

/// How one position lies to another.
#[derive(Clone, Copy, Debug, PartialEq, Eq, Structural)]
pub enum ComparisonResult {
    Ascending,
    Same,
    Descending,
}

/// The directions in which the text field's protocol moves.
#[derive(Clone, Copy, Debug, PartialEq, Eq, Structural)]
pub enum LayoutDirection {
    Right,
    Left,
    Up,
    Down,
}

/// The position at `offset`, where that lies within a text of `text_len` code units.
pub open spec fn position_within(offset: int, text_len: i32) -> Option<TextPositionState> {
    if 0 <= offset <= text_len {
        Some(TextPositionState { offset: offset as i32 })
    } else {
        None
    }
}

/// `offset` brought into a text of `text_len` code units: before the text it is the
/// start, beyond the text the end.
pub open spec fn clamped_offset(offset: int, text_len: i32) -> int {
    let raised = if offset < 0 {
        0
    } else {
        offset
    };
    if raised > text_len {
        text_len as int
    } else {
        raised
    }
}

impl TextPositionState {
    pub fn from_offset(offset: i32) -> (position: TextPositionState)
        ensures
            position.offset == offset,
    {
        TextPositionState { offset }
    }

    /// How `self` lies to `other`: before it, at it, or after it.
    pub fn compare_position(&self, other: &TextPositionState) -> (order: ComparisonResult)
        ensures
            self.offset < other.offset ==> order == ComparisonResult::Ascending,
            self.offset > other.offset ==> order == ComparisonResult::Descending,
            self.offset == other.offset ==> order == ComparisonResult::Same,
    {
        if self.offset < other.offset {
            ComparisonResult::Ascending
        } else if self.offset > other.offset {
            ComparisonResult::Descending
        } else {
            ComparisonResult::Same
        }
    }

    /// The number of code units from `self` to `to`, negative where `to` comes first.
    pub fn offset_to(&self, to: &TextPositionState) -> (distance: i64)
        ensures
            distance == to.offset - self.offset,
    {
        to.offset as i64 - self.offset as i64
    }

    /// The position `offset` code units after `self`, or `None` where that lies outside
    /// a text of `text_len` code units.
    pub fn position_from_offset(&self, offset: i32, text_len: i32) -> (position: Option<
        TextPositionState,
    >)
        ensures
            position == position_within(self.offset + offset, text_len),
    {
        let end: i64 = self.offset as i64 + offset as i64;
        if end > text_len as i64 || end < 0 {
            None
        } else {
            Some(TextPositionState { offset: end as i32 })
        }
    }

    /// The position `offset` code units from `self` to the right or to the left, kept
    /// within a text of `text_len` code units. Moving up or down leaves the offset as it
    /// is, but for keeping it within the text.
    pub fn position_in_direction(&self, direction: LayoutDirection, offset: i32, text_len: i32) -> (position:
        TextPositionState)
        ensures
            direction == LayoutDirection::Right ==> position.offset == clamped_offset(
                self.offset + offset,
                text_len,
            ),
            direction == LayoutDirection::Left ==> position.offset == clamped_offset(
                self.offset - offset,
                text_len,
            ),
            direction == LayoutDirection::Up || direction == LayoutDirection::Down
                ==> position.offset == clamped_offset(self.offset as int, text_len),
    {
        let mut moved: i64 = self.offset as i64;
        match direction {
            LayoutDirection::Right => {
                moved = moved + offset as i64;
            },
            LayoutDirection::Left => {
                moved = moved - offset as i64;
            },
            _ => {},
        }
        if moved < 0 {
            moved = 0;
        }
        if moved > text_len as i64 {
            moved = text_len as i64;
        }
        TextPositionState { offset: moved as i32 }
    }
}

impl TextRangeState {
    /// The range of `length` code units from `location`.
    pub fn from_start_len(location: usize, length: usize) -> (range: TextRangeState)
        ensures
            range.location == location,
            range.length == length,
    {
        TextRangeState { location, length }
    }

    /// The range between two positions of the text, whichever comes first; `None` where
    /// one of them lies before the text.
    pub fn between(from: &TextPositionState, to: &TextPositionState) -> (range: Option<
        TextRangeState,
    >)
        ensures
            from.offset < 0 || to.offset < 0 ==> range is None,
            0 <= from.offset <= to.offset ==> range == Some(
                TextRangeState {
                    location: from.offset as usize,
                    length: (to.offset - from.offset) as usize,
                },
            ),
            0 <= to.offset < from.offset ==> range == Some(
                TextRangeState {
                    location: to.offset as usize,
                    length: (from.offset - to.offset) as usize,
                },
            ),
    {
        if from.offset < 0 || to.offset < 0 {
            None
        } else if from.offset <= to.offset {
            Some(
                TextRangeState {
                    location: from.offset as usize,
                    length: (to.offset - from.offset) as usize,
                },
            )
        } else {
            Some(
                TextRangeState {
                    location: to.offset as usize,
                    length: (from.offset - to.offset) as usize,
                },
            )
        }
    }

    /// Whether the range holds no code unit.
    pub fn is_empty(&self) -> (empty: bool)
        ensures
            empty == (self.length == 0),
    {
        self.length == 0
    }

    /// The position at the end of the range that lies farthest in `direction`: its start
    /// for up and left, its end for right and down. `None` where the position cannot be
    /// counted.
    pub fn farthest_position(&self, direction: LayoutDirection) -> (position: Option<
        TextPositionState,
    >)
        ensures
            (direction == LayoutDirection::Up || direction == LayoutDirection::Left)
                ==> position == position_within(self.location as int, i32::MAX),
            (direction == LayoutDirection::Right || direction == LayoutDirection::Down)
                ==> position == position_within(self.location + self.length, i32::MAX),
    {
        match direction {
            LayoutDirection::Up | LayoutDirection::Left => {
                if self.location <= i32::MAX as usize {
                    Some(TextPositionState { offset: self.location as i32 })
                } else {
                    None
                }
            },
            LayoutDirection::Right | LayoutDirection::Down => {
                if self.location <= i32::MAX as usize && self.length <= i32::MAX as usize
                    - self.location {
                    Some(TextPositionState { offset: (self.location + self.length) as i32 })
                } else {
                    None
                }
            },
        }
    }
}

} // verus!
