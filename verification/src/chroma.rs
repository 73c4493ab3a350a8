//! Pitch-class profiles: twelve values, one per semitone from C.
use vstd::prelude::*;

verus! {

/// The profile `chroma` read from pitch class `root` on: entry `i` is
/// the value of pitch class `(i + root) mod 12`.
pub open spec fn rotated<T>(chroma: Seq<T>, root: int) -> Seq<T> {
    Seq::new(12, |i: int| chroma[(i + root) % 12])
}

/// Rotate a 12-bin profile so that pitch class `root` comes first, as a
/// key profile for C is compared with every key.
pub fn rotate_chroma<T: Copy>(chroma: &[T; 12], root: u8) -> (r: [T; 12])
    ensures
        r@ == rotated(chroma@, root as int),
{
    let mut out: [T; 12] = *chroma;
    let shift: usize = root as usize;
    let mut i: usize = 0;
    while i < 12
        invariant
            0 <= i <= 12,
            shift == root,
            out@.len() == 12,
            forall|k: int| 0 <= k < i ==> out@[k] == chroma@[(k + shift) % 12],
        decreases 12 - i,
    {
        let src = (i + shift) % 12;
        out[i] = chroma[src];
        i = i + 1;
    }
    assert(out@ =~= rotated(chroma@, root as int));
    out
}

/// Rotating by 0 changes nothing, and two rotations add up modulo 12.
pub proof fn lemma_rotation_composes<T>(chroma: Seq<T>, a: int, b: int)
    requires
        chroma.len() == 12,
        0 <= a,
        0 <= b,
    ensures
        rotated(chroma, 0) == chroma,
        rotated(rotated(chroma, a), b) == rotated(chroma, (a + b) % 12),
        rotated(chroma, 12) == chroma,
{
    assert(rotated(chroma, 0) =~= chroma);
    assert forall|i: int| 0 <= i < 12 implies #[trigger] rotated(chroma, 12)[i] == chroma[i] by {
        assert((i + 12) % 12 == i);
    }
    assert(rotated(chroma, 12) =~= chroma);
    let l = rotated(rotated(chroma, a), b);
    let r = rotated(chroma, (a + b) % 12);
    assert forall|i: int| 0 <= i < 12 implies #[trigger] l[i] == r[i] by {
        let j = (i + b) % 12;
        assert(0 <= j < 12);
        vstd::arithmetic::div_mod::lemma_add_mod_noop_right(a, i + b, 12);
        vstd::arithmetic::div_mod::lemma_add_mod_noop_right(i, a + b, 12);
        assert((j + a) % 12 == (i + (a + b) % 12) % 12);
    }
    assert(l =~= r);
}

} // verus!
