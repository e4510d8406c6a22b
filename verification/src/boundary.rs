//! The word boundary navigator: where the cursor lands when it skips to the
//! next delimiter on its left or on its right.

use vstd::prelude::*;

verus! {

/// The direction of a word skip.
#[derive(Clone, Copy, Debug, PartialEq, Eq, Structural)]
pub enum Direction {
    Left,
    Right,
}

/// The offset a word skip from `offset` leads to.
///
/// To the left, it is the position of the last `delimiter` in the text before
/// the cursor, or 0 where there is none. To the right, it is the position just
/// past the first `delimiter` in the text from the cursor on, or the end of the
/// buffer where there is none.
pub open spec fn boundary(
    buffer: Seq<char>,
    offset: int,
    direction: Direction,
    delimiter: char,
) -> int {
    match direction {
        Direction::Left => match buffer.take(offset).index_of_last(delimiter) {
            Some(at) => at,
            None => 0,
        },
        Direction::Right => match buffer.skip(offset).index_of_first(delimiter) {
            Some(at) => offset + at + 1,
            None => buffer.len() as int,
        },
    }
}

/// Computes the offset a word skip from `offset` leads to.
pub fn find_boundary(
    buffer: &Vec<char>,
    offset: usize,
    direction: Direction,
    delimiter: char,
) -> (target: usize)
    requires
        offset <= buffer.len(),
    ensures
        target == boundary(buffer@, offset as int, direction, delimiter),
        target <= buffer.len(),
        direction == Direction::Left ==> target <= offset,
        direction == Direction::Right ==> offset <= target,
{
    match direction {
        Direction::Left => {
            let ghost before = buffer@.take(offset as int);
            let mut i: usize = offset;
            while i > 0 && buffer[i - 1] != delimiter
                invariant
                    i <= offset <= buffer.len(),
                    before == buffer@.take(offset as int),
                    forall|j: int| i <= j < offset ==> before[j] != delimiter,
                decreases i,
            {
                i -= 1;
            }
            proof {
                before.index_of_last_ensures(delimiter);
                if i > 0 {
                    assert(before[i - 1] == delimiter);
                }
            }
            if i > 0 {
                i - 1
            } else {
                0
            }
        },
        Direction::Right => {
            let ghost after = buffer@.skip(offset as int);
            let mut i: usize = offset;
            while i < buffer.len() && buffer[i] != delimiter
                invariant
                    offset <= i <= buffer.len(),
                    after == buffer@.skip(offset as int),
                    forall|j: int| 0 <= j < i - offset ==> after[j] != delimiter,
                decreases buffer.len() - i,
            {
                i += 1;
            }
            proof {
                after.index_of_first_ensures(delimiter);
                if i < buffer.len() {
                    assert(after[i - offset] == delimiter);
                }
            }
            if i < buffer.len() {
                i + 1
            } else {
                i
            }
        },
    }
}

/// What a word skip finds. To the left it lands on a delimiter that has no
/// delimiter between it and the cursor, or on 0 where no delimiter stands
/// before the cursor. To the right it lands just past a delimiter that has no
/// delimiter between the cursor and it, or on the end of the buffer where no
/// delimiter stands from the cursor on.
pub proof fn lemma_boundary_is_nearest_delimiter(
    buffer: Seq<char>,
    offset: int,
    direction: Direction,
    delimiter: char,
)
    requires
        0 <= offset <= buffer.len(),
    ensures
        ({
            let target = boundary(buffer, offset, direction, delimiter);
            match direction {
                Direction::Left => {
                    &&& forall|j: int| target < j < offset ==> buffer[j] != delimiter
                    &&& if target < offset && buffer[target] == delimiter {
                        0 <= target
                    } else {
                        target == 0 && forall|j: int| 0 <= j < offset ==> buffer[j] != delimiter
                    }
                },
                Direction::Right => {
                    &&& forall|j: int| offset <= j < target - 1 ==> buffer[j] != delimiter
                    &&& if offset < target && buffer[target - 1] == delimiter {
                        target <= buffer.len()
                    } else {
                        target == buffer.len() && forall|j: int|
                            offset <= j < buffer.len() ==> buffer[j] != delimiter
                    }
                },
            }
        }),
{
    let before = buffer.take(offset);
    let after = buffer.skip(offset);
    before.index_of_last_ensures(delimiter);
    after.index_of_first_ensures(delimiter);
    assert forall|j: int| 0 <= j < offset implies buffer[j] == before[j] by {}
    assert forall|j: int| offset <= j < buffer.len() implies buffer[j] == after[j - offset] by {}
}

/// A word skip never leaves the buffer, and at the buffer's edges it stays
/// where it is: a skip to the left from offset 0 lands on 0, and a skip to the
/// right from the end lands on the end.
pub proof fn lemma_boundary_stays_inside(
    buffer: Seq<char>,
    offset: int,
    direction: Direction,
    delimiter: char,
)
    requires
        0 <= offset <= buffer.len(),
    ensures
        0 <= boundary(buffer, offset, direction, delimiter) <= buffer.len(),
        boundary(buffer, 0, Direction::Left, delimiter) == 0,
        boundary(buffer, buffer.len() as int, Direction::Right, delimiter) == buffer.len(),
{
    buffer.take(offset).index_of_last_ensures(delimiter);
    buffer.skip(offset).index_of_first_ensures(delimiter);
    buffer.take(0).index_of_last_ensures(delimiter);
    buffer.skip(buffer.len() as int).index_of_first_ensures(delimiter);
}

} // verus!
