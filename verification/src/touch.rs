use vstd::prelude::*;

verus! {

/// Readings strictly below this value mean that the pad is being touched.
pub const TOUCH_THRESHOLD: u16 = 500;

/// Whether a raw reading of the touch pad means that it is being touched.
pub open spec fn touched(val: u16) -> bool {
    val < TOUCH_THRESHOLD
}

/// A touch lowers the pad's reading: the pad counts as touched exactly when
/// the reading lies below `TOUCH_THRESHOLD`.
pub fn is_touched(val: u16) -> (res: bool)
    ensures
        res == touched(val),
        res == ((val as int) < (TOUCH_THRESHOLD as int)),
{
    val < TOUCH_THRESHOLD
}

/// A reading counts as a touch exactly when its value lies below the
/// threshold.
pub proof fn lemma_touched_below_threshold(val: u16)
    ensures
        touched(val) <==> (val as int) < (TOUCH_THRESHOLD as int),
{
}

/// A touch lowers the reading, so a lower reading is at least as much a
/// touch: if a reading counts as a touch, so does every lower one, and a
/// reading at or above the threshold, however high, never does.
pub proof fn lemma_touched_monotone(lower: u16, higher: u16)
    ensures
        lower <= higher && touched(higher) ==> touched(lower),
        higher >= TOUCH_THRESHOLD ==> !touched(higher),
        lower < TOUCH_THRESHOLD ==> touched(lower),
{
}

} // verus!
