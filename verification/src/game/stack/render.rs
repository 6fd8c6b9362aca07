//! Colors and words of the stack playfield.

use vstd::prelude::*;

use crate::game::snake::render::placed;
use crate::text::{decimal, decimal_digits, digit_char};

verus! {

/// color the terminal transitions to/from when entering and leaving the game
pub open spec fn clear_color() -> (u8, u8, u8) {
    (10, 10, 10)
}

/// the gray level of background row `row`: brighter toward the bottom and
/// as the stack grows, capped at white
pub open spec fn bg_shade(stack: int, row: int, rows: int) -> u8 {
    let shade = stack + (rows - row);
    if shade > 255 { 255 } else { shade as u8 }
}

/// the background color of row `row` of `rows` with `stack` bars stacked
pub fn get_bg_color(stack: usize, row: usize, rows: usize) -> (r: (u8, u8, u8))
    requires
        row <= rows,
        stack + (rows - row) <= usize::MAX,
    ensures
        r == (bg_shade(stack as int, row as int, rows as int), bg_shade(stack as int, row as int, rows as int), bg_shade(stack as int, row as int, rows as int)),
{
    let shade = stack + (rows - row);
    let shade = if shade > 255 {
        255
    } else {
        shade as u8
    };
    (shade, shade, shade)
}

/// the line at the top until the first cut
pub fn instructions() -> (r: &'static str)
    ensures
        r@ == "Press space or enter to stop the bar, q to quit."@,
{
    "Press space or enter to stop the bar, q to quit."
}

/// the column at which `len` characters stand centred in `cols` columns
pub fn centered_col(len: usize, cols: usize) -> (r: usize)
    ensures
        r == (if len <= cols { (cols - len) as int } else { 0 }) / 2,
{
    cols.saturating_sub(len) / 2
}

/// the words next to the top bar after a perfect cut: the run's length
/// once it is longer than one
pub open spec fn spec_perfect_text(run: u64) -> Seq<char> {
    if run > 1 {
        "perfect x"@ + decimal_digits(run as nat) + "!"@
    } else {
        "perfect!"@
    }
}

pub fn perfect_text(run: u64) -> (r: String)
    ensures
        r@ == spec_perfect_text(run),
{
    if run > 1 {
        let mut s = "perfect x".to_string();
        s.append(decimal(run).as_str());
        s.append("!");
        s
    } else {
        "perfect!".to_string()
    }
}

/// a multiplier counted in tenths, with one decimal
pub open spec fn tenths_digits(tenths: u64) -> Seq<char> {
    decimal_digits((tenths / 10) as nat) + seq!['.', digit_char((tenths % 10) as nat)]
}

/// the line at the top once the first cut is made: bars stacked and the
/// multiplier
pub fn score_line(bars: u64, tenths: u64) -> (r: String)
    ensures
        r@ == "stack: "@ + decimal_digits(bars as nat) + "  mult: "@ + tenths_digits(tenths),
{
    let mut s = "stack: ".to_string();
    s.append(decimal(bars).as_str());
    s.append("  mult: ");
    s.append(decimal(tenths / 10).as_str());
    s.append(".");
    s.append(decimal(tenths % 10).as_str());
    proof {
        reveal_strlit(".");
        assert(decimal_digits((tenths % 10) as nat) =~= seq![digit_char((tenths % 10) as nat)]);
    }
    s
}

/// the end screen, each line with its row
pub open spec fn spec_game_over_lines(points: u64) -> Seq<(usize, Seq<char>)> {
    seq![
        (5usize, "Game Over"@),
        (7usize, "You earned "@ + decimal_digits(points as nat) + " party points!"@),
        (9usize, "Press any key to return to party."@),
    ]
}

pub fn game_over_lines(points: u64) -> (r: Vec<(usize, String)>)
    ensures
        placed(r@) == spec_game_over_lines(points),
{
    let mut earned = "You earned ".to_string();
    earned.append(decimal(points).as_str());
    earned.append(" party points!");
    let r = vec![(5, "Game Over".to_string()), (7, earned), (9, "Press any key to return to party.".to_string())];
    assert(placed(r@) =~= spec_game_over_lines(points));
    r
}

} // verus!
