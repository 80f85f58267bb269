use vstd::prelude::*;

verus! {

/// The step of the camera along one axis, from the two keys that move it:
/// `-1` toward the negative side, `1` toward the positive side, `0` when
/// neither or both are held.
pub fn movement_axis(negative: bool, positive: bool) -> (step: i8)
    ensures
        step == (if positive { 1int } else { 0int }) - (if negative { 1int } else { 0int }),
{
    let mut step: i8 = 0;
    if negative {
        step = step - 1;
    }
    if positive {
        step = step + 1;
    }
    step
}

} // verus!
