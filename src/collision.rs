use vstd::prelude::*;

verus! {

/// Whether the box at `(ax, ay)` of size `aw` x `ah` and the box at
/// `(bx, by)` of size `bw` x `bh` overlap; touching edges count.
pub open spec fn boxes_overlap(
    ax: int,
    ay: int,
    aw: int,
    ah: int,
    bx: int,
    by: int,
    bw: int,
    bh: int,
) -> bool {
    ax <= bx + bw && ax + aw >= bx && ay <= by + bh && ay + ah >= by
}

/// Overlap does not depend on the order of the two boxes.
pub proof fn lemma_overlap_symmetric(
    ax: int,
    ay: int,
    aw: int,
    ah: int,
    bx: int,
    by: int,
    bw: int,
    bh: int,
)
    ensures
        boxes_overlap(ax, ay, aw, ah, bx, by, bw, bh) == boxes_overlap(bx, by, bw, bh, ax, ay, aw, ah),
{
}

} // verus!
