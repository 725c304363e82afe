use vstd::prelude::*;

use crate::components::Frame;

verus! {

/// Bullets are fired, and flagged entities swept, on a period of this many frames.
pub const CADENCE: u32 = 10;

/// Whether frame number `n` is one on which bullets may be fired.
pub open spec fn on_cadence(n: u32) -> bool {
    n % CADENCE == 0
}

/// `s` written out `n` times, one copy after another.
pub open spec fn repeated(s: Seq<u32>, n: nat) -> Seq<u32>
    decreases n,
{
    if n == 0 {
        Seq::empty()
    } else {
        repeated(s, (n - 1) as nat) + s
    }
}

/// Whether a bullet leaves the player on this frame: only on frames of the
/// cadence, and only while the left mouse button is held.
pub fn bullet_due(f: &Frame, left_pressed: bool) -> (r: bool)
    ensures
        r == (on_cadence(f.0) && left_pressed),
{
    f.0 % CADENCE == 0 && left_pressed
}

/// The despawn commands of the bounds sweep, in the order they are issued.
///
/// The sweep is skipped on frames of the cadence. On every other frame each
/// camera in turn removes every flagged entity, so the ids in `flagged` come
/// out once per camera.
pub fn bounds_check(f: &Frame, n_cameras: usize, flagged: &Vec<u32>) -> (r: Vec<u32>)
    ensures
        on_cadence(f.0) ==> r@ == Seq::<u32>::empty(),
        !on_cadence(f.0) ==> r@ == repeated(flagged@, n_cameras as nat),
{
    let mut out: Vec<u32> = Vec::new();
    if f.0 % CADENCE == 0 {
        return out;
    }
    let mut c: usize = 0;
    while c < n_cameras
        invariant
            c <= n_cameras,
            out@ == repeated(flagged@, c as nat),
        decreases n_cameras - c,
    {
        let ghost before = out@;
        let mut i: usize = 0;
        while i < flagged.len()
            invariant
                i <= flagged@.len(),
                out@ == before + flagged@.subrange(0, i as int),
            decreases flagged@.len() - i,
        {
            out.push(flagged[i]);
            assert(flagged@.subrange(0, i + 1) == flagged@.subrange(0, i as int).push(flagged@[i as int]));
            i = i + 1;
        }
        assert(flagged@.subrange(0, flagged@.len() as int) == flagged@);
        c = c + 1;
    }
    out
}

} // verus!
