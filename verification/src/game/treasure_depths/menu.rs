//! Centered modal panels drawn over the game.

use vstd::prelude::*;

use crate::text::{decimal_digits, push_repeated, repeat_seq};

verus! {

pub const BG_COLOR: (u8, u8, u8) = (0, 0, 0);

pub const BORDER_COLOR: (u8, u8, u8) = (210, 210, 210);

pub const TITLE_COLOR: (u8, u8, u8) = (250, 230, 120);

pub const TEXT_COLOR: (u8, u8, u8) = (220, 220, 220);

pub const FOOTER_COLOR: (u8, u8, u8) = (140, 140, 140);

/// the narrowest a panel's inside gets
pub const MIN_INNER_WIDTH: usize = 40;

/// the space kept on each side of a panel's widest line
pub const H_PADDING: usize = 3;

/// the escape sequence that moves the cursor to zero-based column `col`
/// and row `row`
pub open spec fn move_to_seq(col: nat, row: nat) -> Seq<char> {
    seq!['\x1b', '['] + decimal_digits(row + 1) + seq![';'] + decimal_digits(col + 1) + seq!['H']
}

/// the digits of a color's channels, separated by semicolons
pub open spec fn rgb_seq(c: (u8, u8, u8)) -> Seq<char> {
    decimal_digits(c.0 as nat) + seq![';'] + decimal_digits(c.1 as nat) + seq![';'] + decimal_digits(
        c.2 as nat,
    )
}

/// the escape sequence that sets the text color
pub open spec fn fg_seq(c: (u8, u8, u8)) -> Seq<char> {
    seq!['\x1b', '[', '3', '8', ';', '2', ';'] + rgb_seq(c) + seq!['m']
}

/// the escape sequence that sets the background color
pub open spec fn bg_seq(c: (u8, u8, u8)) -> Seq<char> {
    seq!['\x1b', '[', '4', '8', ';', '2', ';'] + rgb_seq(c) + seq!['m']
}

/// Appends the cursor move to zero-based (`col`, `row`), by
/// `tixel::utils::write_move_to`, which writes `ESC [ row+1 ; col+1 H`.
#[verifier::external_body]
fn write_move_to(buf: &mut String, col: usize, row: usize)
    requires
        col < usize::MAX,
        row < usize::MAX,
    ensures
        final(buf)@ == old(buf)@ + move_to_seq(col as nat, row as nat),
{
    tixel::utils::write_move_to(buf, col, row);
}

/// Appends the text color `c`, by `tixel::utils::write_fg_color`, which
/// writes `ESC [ 38 ; 2 ; r ; g ; b m` for an RGB color.
#[verifier::external_body]
fn write_fg_color(buf: &mut String, c: (u8, u8, u8))
    ensures
        final(buf)@ == old(buf)@ + fg_seq(c),
{
    tixel::utils::write_fg_color(buf, tixel::Color::Rgb(c.0, c.1, c.2));
}

/// Appends the background color `c`, by `tixel::utils::write_bg_color`,
/// which writes `ESC [ 48 ; 2 ; r ; g ; b m` for an RGB color.
#[verifier::external_body]
fn write_bg_color(buf: &mut String, c: (u8, u8, u8))
    ensures
        final(buf)@ == old(buf)@ + bg_seq(c),
{
    tixel::utils::write_bg_color(buf, tixel::Color::Rgb(c.0, c.1, c.2));
}

/// a box's edge row: a corner, `width` edge cells, a corner
pub open spec fn edge_seq(left: char, fill: char, right: char, width: nat) -> Seq<char> {
    seq![left] + repeat_seq(seq![fill], width) + seq![right]
}

/// the first `n` inner rows of a box at `offset`
pub open spec fn box_rows(offset: (usize, usize), width: nat, n: nat) -> Seq<char>
    decreases n,
{
    if n == 0 {
        Seq::empty()
    } else {
        box_rows(offset, width, (n - 1) as nat) + move_to_seq(offset.0 as nat, (offset.1 + n) as nat) + edge_seq(
            '▌',
            ' ',
            '▐',
            width,
        )
    }
}

/// what `draw_box` writes: the colors, then the top edge, the inner rows
/// blanked in the background color, and the bottom edge
pub open spec fn box_seq(offset: (usize, usize), width: nat, height: nat) -> Seq<char> {
    bg_seq(BG_COLOR) + fg_seq(BORDER_COLOR) + move_to_seq(offset.0 as nat, offset.1 as nat) + edge_seq(
        '▛',
        '▀',
        '▜',
        width,
    ) + box_rows(offset, width, height) + move_to_seq(offset.0 as nat, (offset.1 + height + 1) as nat) + edge_seq(
        '▙',
        '▄',
        '▟',
        width,
    )
}

/// Draws an empty bordered box and fills its interior with the background
/// color. Callers write their content on top afterward (in the same buffer,
/// so the background color persists).
pub fn draw_box(buf: &mut String, offset: (usize, usize), inner_width: usize, inner_height: usize)
    requires
        offset.0 < usize::MAX,
        offset.1 + inner_height + 2 <= usize::MAX,
    ensures
        final(buf)@ == old(buf)@ + box_seq(offset, inner_width as nat, inner_height as nat),
{
    proof {
        reveal_strlit("▛");
        reveal_strlit("▀");
        reveal_strlit("▜");
        reveal_strlit("▌");
        reveal_strlit(" ");
        reveal_strlit("▐");
        reveal_strlit("▙");
        reveal_strlit("▄");
        reveal_strlit("▟");
        assert("▀"@ =~= seq!['▀']);
        assert("▄"@ =~= seq!['▄']);
        assert(" "@ =~= seq![' ']);
        assert("▛"@ =~= seq!['▛']);
        assert("▜"@ =~= seq!['▜']);
        assert("▌"@ =~= seq!['▌']);
        assert("▐"@ =~= seq!['▐']);
        assert("▙"@ =~= seq!['▙']);
        assert("▟"@ =~= seq!['▟']);
    }
    write_bg_color(buf, BG_COLOR);
    write_fg_color(buf, BORDER_COLOR);

    write_move_to(buf, offset.0, offset.1);
    buf.append("▛");
    push_repeated(buf, "▀", inner_width);
    buf.append("▜");
    let ghost top = buf@;
    assert(top =~= old(buf)@ + bg_seq(BG_COLOR) + fg_seq(BORDER_COLOR) + move_to_seq(offset.0 as nat, offset.1 as nat)
        + edge_seq('▛', '▀', '▜', inner_width as nat));

    let mut row: usize = 1;
    while row <= inner_height
        invariant
            1 <= row <= inner_height + 1,
            offset.0 < usize::MAX,
            offset.1 + inner_height + 2 <= usize::MAX,
            " "@ == seq![' '],
            "▌"@ == seq!['▌'],
            "▐"@ == seq!['▐'],
            buf@ == top + box_rows(offset, inner_width as nat, (row - 1) as nat),
        decreases inner_height + 1 - row,
    {
        write_move_to(buf, offset.0, offset.1 + row);
        buf.append("▌");
        push_repeated(buf, " ", inner_width);
        buf.append("▐");
        assert(buf@ =~= top + box_rows(offset, inner_width as nat, row as nat));
        row = row + 1;
    }

    write_move_to(buf, offset.0, offset.1 + inner_height + 1);
    buf.append("▙");
    push_repeated(buf, "▄", inner_width);
    buf.append("▟");
    assert(buf@ =~= old(buf)@ + box_seq(offset, inner_width as nat, inner_height as nat));
}

/// what `write_text` writes
#[verifier::opaque]
pub open spec fn text_seq(row: nat, col: nat, text: Seq<char>, color: (u8, u8, u8)) -> Seq<char> {
    move_to_seq(col, row) + fg_seq(color) + text
}

/// Writes text at a terminal position in the given color; assumes the
/// background color was already set (e.g. by `draw_box`).
pub fn write_text(buf: &mut String, row: usize, col: usize, text: &str, color: (u8, u8, u8))
    requires
        row < usize::MAX,
        col < usize::MAX,
    ensures
        final(buf)@ == old(buf)@ + text_seq(row as nat, col as nat, text@, color),
{
    write_move_to(buf, col, row);
    write_fg_color(buf, color);
    buf.append(text);
    assert(buf@ =~= old(buf)@ + text_seq(row as nat, col as nat, text@, color)) by {
        reveal(text_seq);
    }
}

/// the top-left offset that centers a box of the given size on screen
pub open spec fn centered(term: (usize, usize), width: nat, height: nat) -> (nat, nat) {
    (
        ((if term.0 >= width { term.0 - width } else { 0 }) / 2) as nat,
        ((if term.1 >= height { term.1 - height } else { 0 }) / 2) as nat,
    )
}

/// the top-left offset that centers a box of the given size on screen
pub fn center(term: (usize, usize), width: usize, height: usize) -> (r: (usize, usize))
    ensures
        r.0 == (if term.0 >= width { term.0 - width } else { 0 }) / 2,
        r.1 == (if term.1 >= height { term.1 - height } else { 0 }) / 2,
{
    (term.0.saturating_sub(width) / 2, term.1.saturating_sub(height) / 2)
}

/// the lines of a panel as text and color
pub open spec fn row_views(rows: Seq<(&str, (u8, u8, u8))>) -> Seq<(Seq<char>, (u8, u8, u8))> {
    rows.map_values(|r: (&str, (u8, u8, u8))| (r.0@, r.1))
}

/// a panel's lines with their colors: the title, a blank line, the body, a
/// blank line and the footer
pub open spec fn panel_rows(title: Seq<char>, body: Seq<Seq<char>>, footer: Seq<char>) -> Seq<
    (Seq<char>, (u8, u8, u8)),
> {
    seq![(title, TITLE_COLOR), (Seq::<char>::empty(), TEXT_COLOR)] + body.map_values(
        |l: Seq<char>| (l, TEXT_COLOR),
    ) + seq![(Seq::<char>::empty(), TEXT_COLOR), (footer, FOOTER_COLOR)]
}

/// the length of the longest of the first `n` lines
pub open spec fn widest_line(rows: Seq<(Seq<char>, (u8, u8, u8))>, n: int) -> nat
    decreases n,
{
    if n <= 0 {
        0
    } else {
        let w = widest_line(rows, n - 1);
        if rows[n - 1].0.len() > w {
            rows[n - 1].0.len()
        } else {
            w
        }
    }
}

/// how wide a panel's inside is: its widest line with padding, but never
/// narrower than the minimum
pub open spec fn panel_width(rows: Seq<(Seq<char>, (u8, u8, u8))>) -> nat {
    let w = widest_line(rows, rows.len() as int) + 2 * H_PADDING;
    if w > MIN_INNER_WIDTH {
        w as nat
    } else {
        MIN_INNER_WIDTH as nat
    }
}

/// the first `n` lines of a panel, each centered within its inner width
pub open spec fn panel_lines(rows: Seq<(Seq<char>, (u8, u8, u8))>, offset: (nat, nat), width: nat, n: nat) -> Seq<
    char,
>
    decreases n,
{
    if n == 0 {
        Seq::empty()
    } else {
        let (text, color) = rows[n - 1];
        let gap = if width >= text.len() { width - text.len() } else { 0 };
        panel_lines(rows, offset, width, (n - 1) as nat) + text_seq(
            offset.1 + 1 + (n - 1) as nat,
            offset.0 + 1 + (gap / 2) as nat,
            text,
            color,
        )
    }
}

/// what a panel draws: its box, centered on screen, then its lines
pub open spec fn panel_seq(term: (usize, usize), rows: Seq<(Seq<char>, (u8, u8, u8))>) -> Seq<char> {
    let w = panel_width(rows);
    let h = rows.len();
    let offset = centered(term, w + 2, h + 2);
    box_seq((offset.0 as usize, offset.1 as usize), w, h) + panel_lines(rows, offset, w, h)
}

/// a centered, non-interactive modal panel drawn over the game
pub struct Menu {
    /// terminal size in (cols, rows)
    term: (usize, usize),
}

impl Menu {
    pub closed spec fn spec_term(&self) -> (usize, usize) {
        self.term
    }

    pub fn new(term: (usize, usize)) -> (m: Self)
        ensures
            m.spec_term() == term,
    {
        Self { term }
    }

    /// Draws a bordered box centered on screen with a title, body lines,
    /// and a footer hint, all horizontally centered.
    pub fn render(&self, buf: &mut String, title: &str, body: &[&str], footer: &str)
        requires
            body@.len() <= usize::MAX / 4,
            title@.len() <= usize::MAX / 4,
            footer@.len() <= usize::MAX / 4,
            forall|i: int| 0 <= i < body@.len() ==> (#[trigger] body@[i])@.len() <= usize::MAX / 4,
        ensures
            final(buf)@ == old(buf)@ + panel_seq(
                self.spec_term(),
                panel_rows(title@, body@.map_values(|l: &str| l@), footer@),
            ),
    {
        // content rows: title, blank, body..., blank, footer
        let mut rows: Vec<(&str, (u8, u8, u8))> = Vec::new();
        rows.push((title, TITLE_COLOR));
        rows.push(("", TEXT_COLOR));
        let ghost lines = body@.map_values(|l: &str| l@);
        let mut k: usize = 0;
        while k < body.len()
            invariant
                0 <= k <= body@.len(),
                lines == body@.map_values(|l: &str| l@),
                rows@.len() == k + 2,
                row_views(rows@) =~= seq![(title@, TITLE_COLOR), (""@, TEXT_COLOR)] + lines.take(k as int).map_values(
                    |l: Seq<char>| (l, TEXT_COLOR),
                ),
            decreases body@.len() - k,
        {
            let ghost prev = rows@;
            rows.push((body[k], TEXT_COLOR));
            assert(row_views(rows@) =~= row_views(prev).push((body@[k as int]@, TEXT_COLOR)));
            assert(lines.take(k + 1) =~= lines.take(k as int).push(lines[k as int]));
            assert(lines.take(k + 1).map_values(|l: Seq<char>| (l, TEXT_COLOR)) =~= lines.take(k as int).map_values(
                |l: Seq<char>| (l, TEXT_COLOR),
            ).push((lines[k as int], TEXT_COLOR)));
            assert(row_views(rows@) =~= seq![(title@, TITLE_COLOR), (""@, TEXT_COLOR)] + lines.take(k + 1).map_values(
                |l: Seq<char>| (l, TEXT_COLOR),
            ));
            k = k + 1;
        }
        let ghost before_tail = rows@;
        rows.push(("", TEXT_COLOR));
        rows.push((footer, FOOTER_COLOR));
        proof {
            reveal_strlit("");
            assert(""@ =~= Seq::<char>::empty());
            assert(lines.take(body@.len() as int) =~= lines);
            assert(row_views(rows@) =~= row_views(before_tail) + seq![
                (Seq::<char>::empty(), TEXT_COLOR),
                (footer@, FOOTER_COLOR),
            ]);
        }
        let ghost all = panel_rows(title@, lines, footer@);
        assert(row_views(rows@) =~= all);

        let mut widest: usize = 0;
        let mut i: usize = 0;
        while i < rows.len()
            invariant
                0 <= i <= rows@.len(),
                row_views(rows@) == all,
                all.len() == body@.len() + 4,
                forall|j: int| 0 <= j < all.len() ==> (#[trigger] all[j]).0.len() <= usize::MAX / 4,
                widest == widest_line(all, i as int),
                widest <= usize::MAX / 4,
            decreases rows@.len() - i,
        {
            let len = rows[i].0.unicode_len();
            assert(len == all[i as int].0.len());
            if len > widest {
                widest = len;
            }
            i = i + 1;
        }
        let inner_width = if widest + 2 * H_PADDING > MIN_INNER_WIDTH {
            widest + 2 * H_PADDING
        } else {
            MIN_INNER_WIDTH
        };
        let inner_height = rows.len();

        let offset = center(self.term, inner_width + 2, inner_height + 2);
        draw_box(buf, offset, inner_width, inner_height);
        let ghost boxed = buf@;

        let mut i: usize = 0;
        while i < rows.len()
            invariant
                0 <= i <= rows@.len(),
                row_views(rows@) == all,
                all.len() == body@.len() + 4,
                inner_height == all.len(),
                inner_height <= usize::MAX / 4 + 4,
                inner_width <= usize::MAX / 4 + 2 * H_PADDING + MIN_INNER_WIDTH,
                offset.0 <= usize::MAX / 2,
                offset.1 <= usize::MAX / 2,
                buf@ == boxed + panel_lines(all, (offset.0 as nat, offset.1 as nat), inner_width as nat, i as nat),
            decreases rows@.len() - i,
        {
            let (text, color) = rows[i];
            let len = text.unicode_len();
            let gap = if inner_width >= len {
                inner_width - len
            } else {
                0
            };
            let col = offset.0 + 1 + gap / 2;
            write_text(buf, offset.1 + 1 + i, col, text, color);
            assert(buf@ =~= boxed + panel_lines(all, (offset.0 as nat, offset.1 as nat), inner_width as nat, (i + 1) as nat));
            i = i + 1;
        }
    }

    /// the terminal size the menu centers itself in
    pub fn term(&self) -> (r: (usize, usize))
        ensures
            r == self.spec_term(),
    {
        self.term
    }
}

} // verus!
