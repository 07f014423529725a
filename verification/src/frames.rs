//! Frames of the sprite sheet: the block of four that belongs to each
//! direction, and how the displayed frame is kept inside a block and moved
//! through it.

use crate::movement::Movement;
use vstd::prelude::*;

verus! {

/// A block of frames on the sprite sheet, by its first and last index, both
/// inside the block.
#[derive(Clone, Copy, Debug, PartialEq, Eq, Structural)]
pub struct AnimationIndices {
    pub first: usize,
    pub last: usize,
}

impl AnimationIndices {
    /// The block holds exactly four frames.
    pub open spec fn wf(self) -> bool {
        self.last == self.first + 3
    }

    /// The frame lies inside the block.
    pub open spec fn contains(self, frame: usize) -> bool {
        self.first <= frame <= self.last
    }

    /// The frame to show for `frame` once a stale one is put right: the
    /// frame itself where it is one of the four that start at `first`, else
    /// `first`.
    pub open spec fn corrected(self, frame: usize) -> usize {
        let offset = (self.first + 3) - frame;
        if offset < 0 || offset > 3 {
            self.first
        } else {
            frame
        }
    }

    /// The frame that follows `frame` in the cycle through the block.
    pub open spec fn next(self, frame: usize) -> usize {
        if frame == self.last {
            self.first
        } else {
            (frame + 1) as usize
        }
    }

    /// The block that starts at `first`.
    pub fn starting_at(first: usize) -> (block: AnimationIndices)
        requires
            first + 3 <= usize::MAX,
        ensures
            block == (AnimationIndices { first, last: (first + 3) as usize }),
            block.wf(),
    {
        AnimationIndices { first, last: first + 3 }
    }

    /// Puts a stale frame right: a frame that is none of the four starting
    /// at `first` becomes `first`, any other stays.
    pub fn correct(&self, frame: usize) -> (shown: usize)
        ensures
            shown == self.corrected(frame),
            self.first <= shown <= self.first + 3,
            self.wf() ==> self.contains(shown),
    {
        if frame < self.first || frame - self.first > 3 {
            self.first
        } else {
            frame
        }
    }

    /// Moves on by one frame, from the last frame of the block back to its
    /// first.
    pub fn advance(&self, frame: usize) -> (shown: usize)
        requires
            frame == self.last || frame < usize::MAX,
        ensures
            shown == self.next(frame),
            frame == self.last ==> shown == self.first,
            self.contains(frame) ==> self.contains(shown),
    {
        if frame == self.last {
            self.first
        } else {
            frame + 1
        }
    }
}

/// The sheet has four cells in a row.
pub const SHEET_COLUMNS: usize = 4;

/// The sheet has eight rows, 32 cells in all.
pub const SHEET_ROWS: usize = 8;

/// Where a frame lies on the sheet: its column, then its row.
pub open spec fn cell_of(frame: usize) -> (usize, usize) {
    ((frame % 4) as usize, (frame / 4) as usize)
}

/// The cell of the sheet that holds a frame, as column and row. The frames
/// run along the rows, four to a row.
pub fn sheet_cell(frame: usize) -> (cell: (usize, usize))
    ensures
        cell == cell_of(frame),
        cell.0 < 4,
        frame == cell.1 * 4 + cell.0,
        frame < 32 ==> cell.1 < 8,
{
    (frame % SHEET_COLUMNS, frame / SHEET_COLUMNS)
}

/// The block of frames of each direction; none for a sprite that stands.
pub open spec fn range_of(state: Movement) -> Option<AnimationIndices> {
    match state {
        Movement::Down => Some(AnimationIndices { first: 0, last: 3 }),
        Movement::DownRight => Some(AnimationIndices { first: 4, last: 7 }),
        Movement::Right => Some(AnimationIndices { first: 8, last: 11 }),
        Movement::UpRight => Some(AnimationIndices { first: 12, last: 15 }),
        Movement::Up => Some(AnimationIndices { first: 16, last: 19 }),
        Movement::UpLeft => Some(AnimationIndices { first: 20, last: 23 }),
        Movement::Left => Some(AnimationIndices { first: 24, last: 27 }),
        Movement::DownLeft => Some(AnimationIndices { first: 28, last: 31 }),
        Movement::Idle => None,
    }
}

/// The block in use after the selector has seen `state`: that of the
/// direction, or the one in use before where the sprite stands.
pub open spec fn selected(state: Movement, current: AnimationIndices) -> AnimationIndices {
    match range_of(state) {
        Some(block) => block,
        None => current,
    }
}

/// Looks up the block of frames of a direction.
pub fn frame_range(state: Movement) -> (block: Option<AnimationIndices>)
    ensures
        block == range_of(state),
{
    match state {
        Movement::Down => Some(AnimationIndices { first: 0, last: 3 }),
        Movement::DownRight => Some(AnimationIndices { first: 4, last: 7 }),
        Movement::Right => Some(AnimationIndices { first: 8, last: 11 }),
        Movement::UpRight => Some(AnimationIndices { first: 12, last: 15 }),
        Movement::Up => Some(AnimationIndices { first: 16, last: 19 }),
        Movement::UpLeft => Some(AnimationIndices { first: 20, last: 23 }),
        Movement::Left => Some(AnimationIndices { first: 24, last: 27 }),
        Movement::DownLeft => Some(AnimationIndices { first: 28, last: 31 }),
        Movement::Idle => None,
    }
}

/// Sets the block in use to that of the direction. While the sprite stands
/// the block stays as it is.
pub fn select_range(state: Movement, indices: &mut AnimationIndices)
    ensures
        *final(indices) == selected(state, *old(indices)),
        old(indices).wf() ==> final(indices).wf(),
{
    match frame_range(state) {
        Some(block) => {
            *indices = block;
        },
        None => {},
    }
}

/// Every direction has a block of four frames that fills one row of the
/// sheet of 32, and two directions share no frame.
pub proof fn lemma_blocks_apart(a: Movement, b: Movement)
    requires
        !a.is_idle(),
        !b.is_idle(),
    ensures
        range_of(a) is Some,
        range_of(a).unwrap().wf(),
        range_of(a).unwrap().last < 32,
        cell_of(range_of(a).unwrap().first).0 == 0,
        cell_of(range_of(a).unwrap().last) == (3usize, cell_of(range_of(a).unwrap().first).1),
        a != b ==> range_of(a).unwrap().last < range_of(b).unwrap().first || range_of(
            b,
        ).unwrap().last < range_of(a).unwrap().first,
{
}

} // verus!
