//! What a renderer keeps of the frame before: one entry for each bar, or
//! nothing worth keeping.

use crate::NUM_BARS;
use vstd::prelude::*;

verus! {

/// The entries that the next frame is blended with. A history of one entry
/// for each bar is kept as it is. Any other is dropped whole, and every bar
/// starts again from `rest`.
pub open spec fn settled<T>(previous: Seq<T>, rest: T) -> Seq<T> {
    if previous.len() == NUM_BARS {
        previous
    } else {
        Seq::new(NUM_BARS as nat, |i: int| rest)
    }
}

/// Makes `previous` fit for blending: see [`settled`].
pub fn settle<T: Copy>(previous: &mut Vec<T>, rest: T)
    ensures
        final(previous)@ == settled(old(previous)@, rest),
        final(previous)@.len() == NUM_BARS,
{
    if previous.len() != NUM_BARS {
        previous.clear();
        let mut filled: usize = 0;
        while filled < NUM_BARS
            invariant
                filled <= NUM_BARS,
                previous@.len() == filled,
                forall|i: int| 0 <= i < filled ==> previous@[i] == rest,
            decreases NUM_BARS - filled,
        {
            previous.push(rest);
            filled += 1;
        }
        assert(previous@ =~= Seq::new(NUM_BARS as nat, |i: int| rest));
    }
}

} // verus!
