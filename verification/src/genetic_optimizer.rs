use vstd::prelude::*;
use crate::models::DeckShapeType;

verus! {

/// Most stabiliser plates a deck shape may carry.
pub const MAX_PLATE_COUNT: i32 = 4;

/// Stabiliser-plate count after a mutation step of `delta`: the shifted
/// count, clamped into `0..=4`.
pub open spec fn mutated_plate_count(count: usize, delta: i32) -> int {
    let shifted: int = (count as i32) + delta;
    if shifted < 0 {
        0
    } else if shifted > MAX_PLATE_COUNT {
        MAX_PLATE_COUNT as int
    } else {
        shifted
    }
}

/// Applies a mutation step to a stabiliser-plate count. The count is taken
/// as an `i32`, as the optimizer does, and the sum must fit in one.
pub fn mutate_plate_count(count: usize, delta: i32) -> (r: usize)
    requires
        i32::MIN <= (count as i32) + delta <= i32::MAX,
    ensures
        r == mutated_plate_count(count, delta),
        r <= 4,
        count <= i32::MAX ==> (0 <= count + delta <= 4 ==> r == count + delta),
        count <= i32::MAX ==> (count + delta < 0 ==> r == 0),
        count <= i32::MAX ==> (count + delta > 4 ==> r == 4),
{
    let c: i32 = count as i32;
    let shifted: i32 = c + delta;
    let lower: i32 = if shifted < 0 { 0 } else { shifted };
    let clamped: i32 = if lower > MAX_PLATE_COUNT { MAX_PLATE_COUNT } else { lower };
    clamped as usize
}

/// A mutation step moves the plate count by `delta` and clamps the outcome
/// into `0..=4`: the count becomes `count + delta` when that lies in range,
/// 0 below it and 4 above it. A step of zero leaves a count in range as it
/// is, and a step of one adds a plate to any count under the limit.
pub proof fn lemma_mutation_clamps(count: usize, delta: i32)
    requires
        count <= i32::MAX,
    ensures
        0 <= count + delta <= 4 ==> mutated_plate_count(count, delta) == count + delta,
        count + delta < 0 ==> mutated_plate_count(count, delta) == 0,
        count + delta > 4 ==> mutated_plate_count(count, delta) == 4,
        0 <= mutated_plate_count(count, delta) <= 4,
        count <= 4 && delta == 0 ==> mutated_plate_count(count, delta) == count,
        count < 4 && delta == 1 ==> mutated_plate_count(count, delta) == count + 1,
{
}

impl DeckShapeType {
    /// Position of the shape in the optimizer's table of shapes.
    pub open spec fn position(self) -> nat {
        match self {
            DeckShapeType::Flat => 0,
            DeckShapeType::Streamlined => 1,
            DeckShapeType::Box => 2,
            DeckShapeType::Slotted => 3,
        }
    }

    /// The shape at position `i` of the optimizer's table of shapes.
    pub fn from_index(i: usize) -> (t: DeckShapeType)
        requires
            i < 4,
        ensures
            t.position() == i,
    {
        match i {
            0 => DeckShapeType::Flat,
            1 => DeckShapeType::Streamlined,
            2 => DeckShapeType::Box,
            _ => DeckShapeType::Slotted,
        }
    }

    /// Position of this shape in the optimizer's table of shapes, as used
    /// when a shape is encoded for the surrogate model.
    pub fn index(&self) -> (i: usize)
        ensures
            i == self.position(),
            i < 4,
    {
        match self {
            DeckShapeType::Flat => 0,
            DeckShapeType::Streamlined => 1,
            DeckShapeType::Box => 2,
            DeckShapeType::Slotted => 3,
        }
    }
}

/// Encoding a shape and decoding its position give the same shape back.
pub proof fn lemma_shape_index_round_trip(t: DeckShapeType, i: nat)
    ensures
        t.position() < 4,
        i < 4 ==> exists|u: DeckShapeType| #[trigger] u.position() == i,
        forall|u: DeckShapeType| #[trigger] u.position() == t.position() ==> u == t,
{
    if i < 4 {
        if i == 0 {
            assert(DeckShapeType::Flat.position() == i);
        } else if i == 1 {
            assert(DeckShapeType::Streamlined.position() == i);
        } else if i == 2 {
            assert(DeckShapeType::Box.position() == i);
        } else {
            assert(DeckShapeType::Slotted.position() == i);
        }
    }
}

} // verus!
