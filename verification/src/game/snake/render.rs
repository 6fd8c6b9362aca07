//! The words the snake game shows around its board, and where they go.

use vstd::prelude::*;

use crate::text::{decimal, decimal_digits};

verus! {

/// a line of text and the row it stands on, counted from the board's top
pub open spec fn placed(lines: Seq<(usize, String)>) -> Seq<(usize, Seq<char>)> {
    lines.map_values(|l: (usize, String)| (l.0, l.1@))
}

/// the row under the board, where the score and messages go
pub open spec fn spec_message_row(offset_y: usize, height: i64) -> int {
    offset_y + (height + 1) / 2 + 1
}

/// the row under a board of `height` cells, two cells to a row
pub fn message_row(offset_y: usize, height: i64) -> (r: usize)
    requires
        height >= 0,
        spec_message_row(offset_y, height) <= usize::MAX,
    ensures
        r == spec_message_row(offset_y, height),
{
    let half: i64 = height / 2 + height % 2;
    assert(half == (height + 1) / 2);
    offset_y + half as usize + 1
}

/// the column at which `text_len` characters stand centred in `width`
/// columns that start at `offset_x`
pub fn centered_col(text_len: usize, offset_x: usize, width: usize) -> (r: usize)
    requires
        text_len <= width,
        offset_x + width <= usize::MAX,
    ensures
        r == offset_x + (width - text_len) / 2,
{
    offset_x + (width - text_len) / 2
}

/// "Score: " and the score
pub fn score_text(score: u64) -> (r: String)
    ensures
        r@ == "Score: "@ + decimal_digits(score as nat),
{
    let mut s = "Score: ".to_string();
    s.append(decimal(score).as_str());
    s
}

/// "High Score: " and the best score
pub fn high_score_text(high_score: u64) -> (r: String)
    ensures
        r@ == "High Score: "@ + decimal_digits(high_score as nat),
{
    let mut s = "High Score: ".to_string();
    s.append(decimal(high_score).as_str());
    s
}

/// what the message line says while the game is paused
pub fn paused_text() -> (r: &'static str)
    ensures
        r@ == "PAUSED  (press space to resume)"@,
{
    "PAUSED  (press space to resume)"
}

/// the title screen, line by line
pub open spec fn spec_title_lines() -> Seq<(usize, Seq<char>)> {
    seq![
        (3usize, "Welcome to Snake!"@),
        (5usize, "Collect fruit."@),
        (6usize, "Don't run into yourself or the walls."@),
        (8usize, "Use the arrow keys to move."@),
        (9usize, "Press space to pause, q to return to Party."@),
        (11usize, "Press any key to play!"@),
    ]
}

fn push_placed(out: &mut Vec<(usize, String)>, row: usize, text: String)
    ensures
        placed(final(out)@) == placed(old(out)@).push((row, text@)),
{
    out.push((row, text));
    assert(placed(out@) =~= placed(old(out)@).push((row, text@)));
}

/// the title screen's lines, each with its row below the board's top
pub fn title_lines() -> (r: Vec<(usize, String)>)
    ensures
        placed(r@) == spec_title_lines(),
{
    let mut out: Vec<(usize, String)> = Vec::new();
    assert(placed(out@) =~= Seq::<(usize, Seq<char>)>::empty());
    push_placed(&mut out, 3, "Welcome to Snake!".to_string());
    push_placed(&mut out, 5, "Collect fruit.".to_string());
    push_placed(&mut out, 6, "Don't run into yourself or the walls.".to_string());
    push_placed(&mut out, 8, "Use the arrow keys to move.".to_string());
    push_placed(&mut out, 9, "Press space to pause, q to return to Party.".to_string());
    push_placed(&mut out, 11, "Press any key to play!".to_string());
    assert(placed(out@) =~= spec_title_lines());
    out
}

/// the game-over screen: the score in fruits and in points, and a word
/// on a new best score
pub open spec fn spec_game_over_lines(score: u64, new_high_score: bool) -> Seq<(usize, Seq<char>)> {
    let fruit_word = if score == 1 { "fruit"@ } else { "fruits"@ };
    let points_word = if score == 1 { "point"@ } else { "points"@ };
    let digits = decimal_digits(score as nat);
    seq![(3usize, "Game Over!"@), (5usize, "You collected "@ + digits + " "@ + fruit_word + "."@)]
        + (if new_high_score { seq![(6usize, "(That's a new high score!)"@)] } else { Seq::empty() })
        + seq![
        (9usize, "You earned "@ + digits + " party "@ + points_word + "!"@),
        (10usize, "Press any key to return to Party."@),
    ]
}

/// the game-over screen's lines, each with its row below the board's top
pub fn game_over_lines(score: u64, new_high_score: bool) -> (r: Vec<(usize, String)>)
    ensures
        placed(r@) == spec_game_over_lines(score, new_high_score),
{
    let fruit_word: &str = if score == 1 { "fruit" } else { "fruits" };
    let points_word: &str = if score == 1 { "point" } else { "points" };
    let digits = decimal(score);

    let mut out: Vec<(usize, String)> = Vec::new();
    assert(placed(out@) =~= Seq::<(usize, Seq<char>)>::empty());
    push_placed(&mut out, 3, "Game Over!".to_string());
    let mut collected = "You collected ".to_string();
    collected.append(digits.as_str());
    collected.append(" ");
    collected.append(fruit_word);
    collected.append(".");
    push_placed(&mut out, 5, collected);
    let ghost head = placed(out@);
    if new_high_score {
        push_placed(&mut out, 6, "(That's a new high score!)".to_string());
    }
    let ghost middle = placed(out@);
    let mut earned = "You earned ".to_string();
    earned.append(digits.as_str());
    earned.append(" party ");
    earned.append(points_word);
    earned.append("!");
    push_placed(&mut out, 9, earned);
    push_placed(&mut out, 10, "Press any key to return to Party.".to_string());
    assert(placed(out@) =~= spec_game_over_lines(score, new_high_score));
    out
}

} // verus!
