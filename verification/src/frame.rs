use vstd::prelude::*;

verus! {

/// The animation loop's counter: the tick handed to the next frame, one more
/// than the tick of the frame just drawn (the first frame gets 0).
pub fn next_tick(tick: u128) -> (next: u128)
    requires
        tick < u128::MAX,
    ensures
        next == tick + 1,
{
    tick + 1
}

} // verus!
