//! Which display the window is scaled for, and how its size compares with
//! the 1920x1080 baseline.
use vstd::prelude::*;

verus! {

/// A display as the scaling sees it: width, height and the scale factor
/// rounded up.
pub type Display = (u32, u32, u32);

/// How a display ranks: its resolution times its rounded-up scale factor,
/// doubled.
pub open spec fn display_key(d: Display) -> int {
    d.0 * d.1 * d.2 * 2
}

/// The rank of a display fits in a `u32` at each step of its computation.
pub open spec fn display_fits(d: Display) -> bool {
    &&& d.0 * d.1 <= u32::MAX
    &&& d.0 * d.1 * d.2 <= u32::MAX
    &&& d.0 * d.1 * d.2 * 2 <= u32::MAX
}

/// The rank of a display.
pub fn display_rank(d: Display) -> (r: u32)
    requires
        display_fits(d),
    ensures
        r == display_key(d),
{
    d.0 * d.1 * d.2 * 2
}

/// The display the window is scaled for: one of largest rank, the last of
/// them in the list (the last after a stable sort by rank); `None` when
/// there is no display.
pub fn compute(displays: &Vec<Display>) -> (r: Option<usize>)
    requires
        forall|i: int| 0 <= i < displays@.len() ==> display_fits(#[trigger] displays@[i]),
    ensures
        r is None <==> displays@.len() == 0,
        r matches Some(i) ==> {
            &&& i < displays@.len()
            &&& forall|j: int| 0 <= j < displays@.len() ==> display_key(#[trigger] displays@[j]) <= display_key(displays@[i as int])
            &&& forall|j: int| i < j < displays@.len() ==> display_key(#[trigger] displays@[j]) < display_key(displays@[i as int])
        },
{
    let n = displays.len();
    if n == 0 {
        return None;
    }
    let mut best: usize = 0;
    let mut best_rank = display_rank(displays[0]);
    let mut k: usize = 1;
    while k < n
        invariant
            n == displays@.len(),
            1 <= k <= n,
            best < k,
            best_rank == display_key(displays@[best as int]),
            forall|i: int| 0 <= i < displays@.len() ==> display_fits(#[trigger] displays@[i]),
            forall|j: int| 0 <= j < k ==> display_key(#[trigger] displays@[j]) <= display_key(displays@[best as int]),
            forall|j: int| best < j < k ==> display_key(#[trigger] displays@[j]) < display_key(displays@[best as int]),
        decreases n - k,
    {
        let rank = display_rank(displays[k]);
        if rank >= best_rank {
            best = k;
            best_rank = rank;
        }
        k = k + 1;
    }
    Some(best)
}

/// The sides of a display, longer first (a display may be turned).
pub fn oriented(width: u32, height: u32) -> (r: (u32, u32))
    ensures
        width > height ==> r == (width, height),
        width <= height ==> r == (height, width),
{
    if width > height {
        (width, height)
    } else {
        (height, width)
    }
}

/// Whether a display matches the baseline on one side, in which case it is
/// not scaled: its longer side is 1920 or its shorter side 1080.
pub fn fits_baseline(width: u32, height: u32) -> (r: bool)
    ensures
        r == (oriented_long(width, height) == 1920 || oriented_short(width, height) == 1080),
{
    let (w, h) = oriented(width, height);
    w == 1920 || h == 1080
}

/// The longer side of a display.
pub open spec fn oriented_long(width: u32, height: u32) -> u32 {
    if width > height { width } else { height }
}

/// The shorter side of a display.
pub open spec fn oriented_short(width: u32, height: u32) -> u32 {
    if width > height { height } else { width }
}

} // verus!
