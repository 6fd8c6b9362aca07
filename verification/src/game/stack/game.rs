//! The rules of stack: bars are cut at half-cell precision, so their
//! edges are counted here in half cells; only the moving bar's fractional
//! position stays outside.

use vstd::prelude::*;

verus! {

/// width of the play area, in columns
pub const GAME_WIDTH: usize = 60;

/// the left and right column bounds of the game area, centered in `cols`
pub fn game_bounds(cols: usize) -> (r: (usize, usize))
    ensures
        r.0 == (if cols >= GAME_WIDTH { (cols - GAME_WIDTH) as int } else { 0 }) / 2,
        r.1 == cols - r.0,
        r.0 <= r.1 <= cols,
{
    let left = cols.saturating_sub(GAME_WIDTH) / 2;
    (left, cols - left)
}

/// what the player can do
pub enum Input {
    Cut,
}

/// how a cut lined up with the bar below
pub enum CutResult {
    Perfect,
    Normal,
    Miss,
}

/// edges this large or larger are beyond any screen; they keep the
/// arithmetic on half cells in range
pub const MAX_HALVES: i64 = 0x1000_0000_0000_0000;

/// whether edges (in half cells) lie within the range the rules handle
pub open spec fn in_range(x: i64) -> bool {
    -MAX_HALVES < x < MAX_HALVES
}

/// Cutting a bar with edges `cur` (left, right, in half cells) on the top
/// bar `top`: none when they do not overlap (edges merely touching count
/// as a miss); otherwise the overlap's edges, and how much was cut off:
/// negative on the left, positive on the right (this reads the cut bar as
/// no wider than the top one).
pub open spec fn spec_cut(cur: (i64, i64), top: (i64, i64)) -> Option<(i64, i64, i64)> {
    if cur.1 <= top.0 || cur.0 >= top.1 {
        None
    } else {
        let left = if cur.0 > top.0 { cur.0 } else { top.0 };
        let right = if cur.1 < top.1 { cur.1 } else { top.1 };
        let deleted = if top.0 - cur.0 > 0 { cur.0 - top.0 } else { cur.1 - top.1 };
        Some((left, right, deleted as i64))
    }
}

/// cuts the moving bar on the top bar (see `spec_cut`)
pub fn cut_halves(cur: (i64, i64), top: (i64, i64)) -> (r: Option<(i64, i64, i64)>)
    requires
        in_range(cur.0),
        in_range(cur.1),
        in_range(top.0),
        in_range(top.1),
    ensures
        r == spec_cut(cur, top),
{
    if cur.1 <= top.0 || cur.0 >= top.1 {
        return None;
    }
    let left = if cur.0 > top.0 { cur.0 } else { top.0 };
    let right = if cur.1 < top.1 { cur.1 } else { top.1 };
    let deleted = if top.0 - cur.0 > 0 { cur.0 - top.0 } else { cur.1 - top.1 };
    Some((left, right, deleted))
}

/// The run of perfect cuts and the score multiplier, in tenths, after a
/// cut: a perfect cut (the new bar as wide as the top one) lengthens the
/// run and adds a tenth per cut in the run to the multiplier; any other
/// cut ends the run and keeps the multiplier.
pub open spec fn spec_after_cut(run: u64, tenths: u64, perfect: bool) -> (u64, u64) {
    if perfect {
        ((run + 1) as u64, (tenths + run + 1) as u64)
    } else {
        (0, tenths)
    }
}

/// the multiplier a game starts with: one, in tenths
pub const START_TENTHS: u64 = 10;

/// the perfect run and multiplier after a cut (see `spec_after_cut`)
pub fn after_cut(run: u64, tenths: u64, perfect: bool) -> (r: (u64, u64))
    requires
        tenths + run + 1 <= u64::MAX,
    ensures
        r == spec_after_cut(run, tenths, perfect),
{
    if perfect {
        (run + 1, tenths + run + 1)
    } else {
        (0, tenths)
    }
}

/// the points a game earns: the bars stacked times the multiplier, rounded
/// down
pub fn score(bars: u64, tenths: u64) -> (r: u64)
    requires
        bars * tenths <= u64::MAX,
    ensures
        r == bars * tenths / 10,
{
    bars * tenths / 10
}

/// A perfect run of `n` cuts raises the multiplier by 1 + 2 + ... + n
/// tenths: each perfect cut adds one tenth more than the one before.
pub proof fn law_perfect_run_adds_up(run: u64, tenths: u64)
    requires
        tenths + run + 1 <= u64::MAX,
    ensures
        spec_after_cut(run, tenths, true).1 - tenths == spec_after_cut(run, tenths, true).0,
        spec_after_cut(run, tenths, false) == (0u64, tenths),
{
}

/// A cut never leaves a bar wider than either bar it was cut from, and
/// what was cut off is the difference on one side.
pub proof fn law_cut_narrows(cur: (i64, i64), top: (i64, i64))
    requires
        in_range(cur.0),
        in_range(cur.1),
        in_range(top.0),
        in_range(top.1),
        cur.0 <= cur.1,
        top.0 <= top.1,
    ensures
        spec_cut(cur, top) matches Some(c) ==> {
            &&& c.0 <= c.1
            &&& c.1 - c.0 <= cur.1 - cur.0
            &&& c.1 - c.0 <= top.1 - top.0
            &&& top.0 <= c.0 && c.1 <= top.1
        },
{
}

} // verus!
