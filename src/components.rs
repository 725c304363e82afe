use vstd::prelude::*;

verus! {

/// Number of frames elapsed since the game started.
#[derive(Default)]
pub struct Frame(pub u32);

/// Marks an entity that is removed by the periodic bounds sweep.
#[derive(Default)]
pub struct DieOutOfBounds(pub u32);

/// Counts one more frame.
pub fn frame(f: &mut Frame)
    requires
        old(f).0 < u32::MAX,
    ensures
        final(f).0 == old(f).0 + 1,
{
    f.0 = f.0 + 1;
}

} // verus!
