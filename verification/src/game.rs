//! The playfield and what has to leave it.

use vstd::prelude::*;
use crate::geometry::Point;

verus! {

/// Left edge of the playfield, in thousandths of a unit.
pub const FRAME_BORDER_LEFT: i32 = -353_000;

/// Top edge of the playfield.
pub const FRAME_BORDER_TOP: i32 = 266_000;

/// Right edge of the playfield.
pub const FRAME_BORDER_RIGHT: i32 = 97_000;

/// Bottom edge of the playfield.
pub const FRAME_BORDER_BOTTOM: i32 = -258_000;

/// How far outside the playfield an entity may stray before it is removed.
pub const BOUNDARY_DISTANCE: i32 = 100_000;

/// Low end of the directions that count as moving up or down: five
/// twelfths of half a turn, in microradians.
pub const UP_DOWN_BRACKET_START: i32 = 1_308_997;

/// High end of the directions that count as moving up or down: seven
/// twelfths of half a turn, in microradians. The end itself is outside.
pub const UP_DOWN_BRACKET_END: i32 = 1_832_596;

/// Whether a point lies on the playfield, edges included.
pub open spec fn in_playfield(position: Point) -> bool {
    &&& FRAME_BORDER_LEFT <= position.x <= FRAME_BORDER_RIGHT
    &&& FRAME_BORDER_BOTTOM <= position.y <= FRAME_BORDER_TOP
}

/// Whether a point lies on the playfield widened by the boundary distance
/// on every side, edges included.
pub open spec fn in_bounds(position: Point) -> bool {
    &&& FRAME_BORDER_LEFT - BOUNDARY_DISTANCE <= position.x <= FRAME_BORDER_RIGHT
        + BOUNDARY_DISTANCE
    &&& FRAME_BORDER_BOTTOM - BOUNDARY_DISTANCE <= position.y <= FRAME_BORDER_TOP
        + BOUNDARY_DISTANCE
}

/// Whether a point lies on the playfield, edges included.
pub fn is_in_playfield(position: Point) -> (inside: bool)
    ensures
        inside == in_playfield(position),
{
    position.x >= FRAME_BORDER_LEFT && position.x <= FRAME_BORDER_RIGHT && position.y
        >= FRAME_BORDER_BOTTOM && position.y <= FRAME_BORDER_TOP
}

/// Whether an entity at `position` has left the widened playfield and is
/// to be removed.
pub fn is_out_of_bounds(position: Point) -> (outside: bool)
    ensures
        outside == !in_bounds(position),
{
    !(position.x >= FRAME_BORDER_LEFT - BOUNDARY_DISTANCE && position.x <= FRAME_BORDER_RIGHT
        + BOUNDARY_DISTANCE && position.y >= FRAME_BORDER_BOTTOM - BOUNDARY_DISTANCE && position.y
        <= FRAME_BORDER_TOP + BOUNDARY_DISTANCE)
}

/// Picks the entities to remove: the places in `positions`, in rising
/// order, of all those that have left the widened playfield.
pub fn out_of_bounds_cleanup(positions: &Vec<Point>) -> (removed: Vec<usize>)
    ensures
        forall|k: int| 0 <= k < removed@.len() ==> (#[trigger] removed@[k]) < positions@.len(),
        forall|k: int|
            0 <= k < removed@.len() ==> !in_bounds(positions@[(#[trigger] removed@[k]) as int]),
        forall|j: int, k: int|
            0 <= j < k < removed@.len() ==> (#[trigger] removed@[j]) < (#[trigger] removed@[k]),
        forall|i: int|
            0 <= i < positions@.len() && !in_bounds(#[trigger] positions@[i])
                ==> removed@.contains(i as usize),
{
    let mut removed: Vec<usize> = Vec::new();
    let mut index: usize = 0;
    while index < positions.len()
        invariant
            index <= positions.len(),
            forall|k: int| 0 <= k < removed@.len() ==> (#[trigger] removed@[k]) < index,
            forall|k: int|
                0 <= k < removed@.len() ==> !in_bounds(
                    positions@[(#[trigger] removed@[k]) as int],
                ),
            forall|j: int, k: int|
                0 <= j < k < removed@.len() ==> (#[trigger] removed@[j]) < (
                #[trigger] removed@[k]),
            forall|i: int|
                0 <= i < index && !in_bounds(#[trigger] positions@[i]) ==> removed@.contains(
                    i as usize,
                ),
        decreases positions.len() - index,
    {
        if is_out_of_bounds(positions[index]) {
            let ghost before = removed@;
            removed.push(index);
            proof {
                assert(removed@[before.len() as int] == index);
                assert forall|i: int|
                    0 <= i < index + 1 && !in_bounds(
                        #[trigger] positions@[i],
                    ) implies removed@.contains(i as usize) by {
                    if i < index {
                        assert(before.contains(i as usize));
                        let k = choose|k: int| 0 <= k < before.len() && before[k] == i as usize;
                        assert(removed@[k] == i as usize);
                    }
                }
            }
        }
        index = index + 1;
    }
    removed
}

/// The playfield lies within its bounds: an entity on the playfield is
/// never picked for removal.
pub proof fn lemma_playfield_is_in_bounds(position: Point)
    ensures
        in_playfield(position) ==> in_bounds(position),
{
}

} // verus!
