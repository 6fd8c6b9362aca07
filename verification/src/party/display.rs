//! The party thrown after a push: a banner, the points earned and how,
//! a quote, or a hint to spend them.

use vstd::prelude::*;

use crate::game::snake::game::random_index;
use crate::git::output::views;
use crate::text::{decimal, decimal_digits};

verus! {

/// the colors a party may be drawn in
pub open spec fn spec_color(i: int) -> Seq<char> {
    if i == 0 {
        "\x1b[31m"@
    } else if i == 1 {
        "\x1b[32m"@
    } else if i == 2 {
        "\x1b[33m"@
    } else if i == 3 {
        "\x1b[34m"@
    } else if i == 4 {
        "\x1b[35m"@
    } else {
        "\x1b[36m"@
    }
}

pub fn color_code(i: usize) -> (r: &'static str)
    requires
        i < 6,
    ensures
        r@ == spec_color(i as int),
{
    if i == 0 {
        "\x1b[31m"
    } else if i == 1 {
        "\x1b[32m"
    } else if i == 2 {
        "\x1b[33m"
    } else if i == 3 {
        "\x1b[34m"
    } else if i == 4 {
        "\x1b[35m"
    } else {
        "\x1b[36m"
    }
}

/// the exclamations a party may shout
pub open spec fn spec_exclamation(i: int) -> Seq<char> {
    if i == 0 {
        "NICE!"@
    } else if i == 1 {
        "AWESOME!"@
    } else if i == 2 {
        "GREAT JOB!"@
    } else if i == 3 {
        "FANTASTIC!"@
    } else if i == 4 {
        "WOOHOO!"@
    } else if i == 5 {
        "AMAZING!"@
    } else if i == 6 {
        "BRILLIANT!"@
    } else if i == 7 {
        "SUPERB!"@
    } else if i == 8 {
        "EXCELLENT!"@
    } else {
        "WONDERFUL!"@
    }
}

pub fn exclamation(i: usize) -> (r: &'static str)
    requires
        i < 10,
    ensures
        r@ == spec_exclamation(i as int),
{
    if i == 0 {
        "NICE!"
    } else if i == 1 {
        "AWESOME!"
    } else if i == 2 {
        "GREAT JOB!"
    } else if i == 3 {
        "FANTASTIC!"
    } else if i == 4 {
        "WOOHOO!"
    } else if i == 5 {
        "AMAZING!"
    } else if i == 6 {
        "BRILLIANT!"
    } else if i == 7 {
        "SUPERB!"
    } else if i == 8 {
        "EXCELLENT!"
    } else {
        "WONDERFUL!"
    }
}

/// the quotes a party may show
pub open spec fn spec_quote(i: int) -> Seq<char> {
    if i == 0 {
        "The only way to do great work is to love what you do."@
    } else if i == 1 {
        "First, solve the problem. Then, write the code."@
    } else if i == 2 {
        "Code is like humor. When you have to explain it, it's bad."@
    } else if i == 3 {
        "Simplicity is the soul of efficiency."@
    } else if i == 4 {
        "Make it work, make it right, make it fast."@
    } else if i == 5 {
        "Any fool can write code that a computer can understand."@
    } else if i == 6 {
        "The best error message is the one that never shows up."@
    } else if i == 7 {
        "Delete code bravely."@
    } else if i == 8 {
        "Weeks of coding can save you hours of planning."@
    } else {
        "It works on my machine!"@
    }
}

pub fn quote(i: usize) -> (r: &'static str)
    requires
        i < 10,
    ensures
        r@ == spec_quote(i as int),
{
    if i == 0 {
        "The only way to do great work is to love what you do."
    } else if i == 1 {
        "First, solve the problem. Then, write the code."
    } else if i == 2 {
        "Code is like humor. When you have to explain it, it's bad."
    } else if i == 3 {
        "Simplicity is the soul of efficiency."
    } else if i == 4 {
        "Make it work, make it right, make it fast."
    } else if i == 5 {
        "Any fool can write code that a computer can understand."
    } else if i == 6 {
        "The best error message is the one that never shows up."
    } else if i == 7 {
        "Delete code bravely."
    } else if i == 8 {
        "Weeks of coding can save you hours of planning."
    } else {
        "It works on my machine!"
    }
}

/// the big "NICE!" banner
pub open spec fn big_text() -> Seq<Seq<char>> {
    seq![
        " ███╗   ██╗██╗ ██████╗███████╗██╗"@,
        " ████╗  ██║██║██╔════╝██╔════╝██║"@,
        " ██╔██╗ ██║██║██║     █████╗  ██║"@,
        " ██║╚██╗██║██║██║     ██╔══╝  ╚═╝"@,
        " ██║ ╚████║██║╚██████╗███████╗██╗"@,
        " ╚═╝  ╚═══╝╚═╝ ╚═════╝╚══════╝╚═╝"@,
    ]
}

/// the reset escape sequence
pub open spec fn reset_seq() -> Seq<char> {
    "\x1b[0m"@
}

/// the bold escape sequence
pub open spec fn bold_seq() -> Seq<char> {
    "\x1b[1m"@
}

/// the banner: the big text, an exclamation, or nothing
pub open spec fn banner_lines(exclamations: bool, big_text_on: bool, c: Seq<char>, bold: Seq<char>, reset: Seq<char>, exclamation: int) -> Seq<Seq<char>> {
    if big_text_on {
        seq![c + bold] + big_text() + seq![reset, Seq::<char>::empty()]
    } else if exclamations {
        seq![bold + c + spec_exclamation(exclamation) + " "@ + reset, Seq::<char>::empty()]
    } else {
        Seq::empty()
    }
}

/// a multiplier bonus, as listed
pub open spec fn bonus_line(b: (u64, Seq<char>)) -> Seq<char> {
    "   × "@ + decimal_digits(b.0 as nat) + " "@ + b.1
}

/// the points lines: what was earned and how, or that the push was
/// already counted
pub open spec fn points_lines(total: u64, commits: u64, points_per_commit: u64, applied: Seq<(u64, Seq<char>)>, c: Seq<char>, reset: Seq<char>) -> Seq<Seq<char>> {
    if total > 0 {
        let commit_word = if commits == 1 { "commit"@ } else { "commits"@ };
        let point_word = if points_per_commit == 1 { "point"@ } else { "points"@ };
        seq![
            c + "🎉 You earned "@ + decimal_digits(total as nat) + " party points!"@ + reset,
            Seq::<char>::empty(),
            "   "@ + decimal_digits(commits as nat) + " "@ + commit_word + " × "@ + decimal_digits(points_per_commit as nat) + " "@ + point_word + " per commit"@,
        ] + applied.map_values(|b: (u64, Seq<char>)| bonus_line(b)) + seq![Seq::<char>::empty()]
    } else {
        seq![c + "🎉 Pushed! (already counted)"@ + reset, Seq::<char>::empty()]
    }
}

/// The lines the party prints after a push, given which features are on
/// and the random picks of color, exclamation and quote. Color is used
/// only with the exclamation or the big text.
pub open spec fn spec_party_lines(
    total: u64,
    commits: u64,
    points_per_commit: u64,
    applied: Seq<(u64, Seq<char>)>,
    exclamations: bool,
    quotes: bool,
    big_text_on: bool,
    color: usize,
    exclamation: usize,
    quote: usize,
) -> Seq<Seq<char>> {
    let use_color = exclamations || big_text_on;
    let c = if use_color { spec_color(color as int) } else { Seq::<char>::empty() };
    let reset = if use_color { reset_seq() } else { Seq::<char>::empty() };
    let bold = if use_color { bold_seq() } else { Seq::<char>::empty() };
    seq![Seq::<char>::empty()] + banner_lines(exclamations, big_text_on, c, bold, reset, exclamation as int)
        + points_lines(total, commits, points_per_commit, applied, c, reset) + (if quotes {
        seq!["\x1b[3m\""@ + spec_quote(quote as int) + "\"\x1b[0m"@, Seq::<char>::empty()]
    } else {
        Seq::empty()
    }) + (if !exclamations && !quotes && !big_text_on {
        seq!["Run `party` to see your total!"@, Seq::<char>::empty()]
    } else {
        Seq::empty()
    })
}

/// the multiplier bonuses as (multiplier, name) texts
pub open spec fn applied_views(applied: Seq<(u64, String)>) -> Seq<(u64, Seq<char>)> {
    applied.map_values(|b: (u64, String)| (b.0, b.1@))
}

fn push_line(out: &mut Vec<String>, line: String)
    ensures
        views(final(out)@) == views(old(out)@).push(line@),
{
    out.push(line);
    assert(views(out@) =~= views(old(out)@).push(line@));
}

/// The lines the party prints after a push (see `spec_party_lines`).
pub fn party_lines(
    total: u64,
    commits: u64,
    points_per_commit: u64,
    applied: &Vec<(u64, String)>,
    exclamations: bool,
    quotes: bool,
    big_text_on: bool,
    color: usize,
    exclamation_idx: usize,
    quote_idx: usize,
) -> (r: Vec<String>)
    requires
        color < 6,
        exclamation_idx < 10,
        quote_idx < 10,
    ensures
        views(r@) == spec_party_lines(
            total,
            commits,
            points_per_commit,
            applied_views(applied@),
            exclamations,
            quotes,
            big_text_on,
            color,
            exclamation_idx,
            quote_idx,
        ),
{
    proof {
        reveal_strlit("");
    }
    assert(""@ =~= Seq::<char>::empty());
    let use_color = exclamations || big_text_on;
    let c: &str = if use_color {
        color_code(color)
    } else {
        ""
    };
    let reset: &str = if use_color {
        "\x1b[0m"
    } else {
        ""
    };
    let bold: &str = if use_color {
        "\x1b[1m"
    } else {
        ""
    };
    let ghost gc = if use_color { spec_color(color as int) } else { Seq::<char>::empty() };
    let ghost greset = if use_color { reset_seq() } else { Seq::<char>::empty() };
    let ghost gbold = if use_color { bold_seq() } else { Seq::<char>::empty() };
    assert(c@ == gc && reset@ == greset && bold@ == gbold);

    let mut out: Vec<String> = Vec::new();
    push_line(&mut out, String::new());
    let ghost start = views(out@);
    assert(start =~= seq![Seq::<char>::empty()]);

    // big text or exclamation
    if big_text_on {
        let mut l = c.to_string();
        l.append(bold);
        push_line(&mut out, l);
        push_line(&mut out, " ███╗   ██╗██╗ ██████╗███████╗██╗".to_string());
        push_line(&mut out, " ████╗  ██║██║██╔════╝██╔════╝██║".to_string());
        push_line(&mut out, " ██╔██╗ ██║██║██║     █████╗  ██║".to_string());
        push_line(&mut out, " ██║╚██╗██║██║██║     ██╔══╝  ╚═╝".to_string());
        push_line(&mut out, " ██║ ╚████║██║╚██████╗███████╗██╗".to_string());
        push_line(&mut out, " ╚═╝  ╚═══╝╚═╝ ╚═════╝╚══════╝╚═╝".to_string());
        push_line(&mut out, reset.to_string());
        push_line(&mut out, String::new());
    } else if exclamations {
        let mut l = bold.to_string();
        l.append(c);
        l.append(exclamation(exclamation_idx));
        l.append(" ");
        l.append(reset);
        push_line(&mut out, l);
        push_line(&mut out, String::new());
    }
    let ghost banner = banner_lines(exclamations, big_text_on, gc, gbold, greset, exclamation_idx as int);
    assert(views(out@) =~= start + banner);
    let ghost after_banner = views(out@);

    // main points line
    if total > 0 {
        let mut l = c.to_string();
        l.append("🎉 You earned ");
        l.append(decimal(total).as_str());
        l.append(" party points!");
        l.append(reset);
        push_line(&mut out, l);
        push_line(&mut out, String::new());
        let commit_word = if commits == 1 {
            "commit"
        } else {
            "commits"
        };
        let point_word = if points_per_commit == 1 {
            "point"
        } else {
            "points"
        };
        let mut l = "   ".to_string();
        l.append(decimal(commits).as_str());
        l.append(" ");
        l.append(commit_word);
        l.append(" × ");
        l.append(decimal(points_per_commit).as_str());
        l.append(" ");
        l.append(point_word);
        l.append(" per commit");
        push_line(&mut out, l);
        let ghost head3 = views(out@);
        let ghost bonuses = applied_views(applied@).map_values(|b: (u64, Seq<char>)| bonus_line(b));
        let mut i: usize = 0;
        while i < applied.len()
            invariant
                0 <= i <= applied@.len(),
                bonuses == applied_views(applied@).map_values(|b: (u64, Seq<char>)| bonus_line(b)),
                views(out@) == head3 + bonuses.take(i as int),
            decreases applied@.len() - i,
        {
            let mut l = "   × ".to_string();
            l.append(decimal(applied[i].0).as_str());
            l.append(" ");
            l.append(applied[i].1.as_str());
            assert(l@ == bonuses[i as int]);
            push_line(&mut out, l);
            assert(bonuses.take(i + 1) =~= bonuses.take(i as int).push(bonuses[i as int]));
            i = i + 1;
        }
        assert(bonuses.take(applied@.len() as int) =~= bonuses);
        push_line(&mut out, String::new());
    } else {
        let mut l = c.to_string();
        l.append("🎉 Pushed! (already counted)");
        l.append(reset);
        push_line(&mut out, l);
        push_line(&mut out, String::new());
    }
    let ghost pts = points_lines(total, commits, points_per_commit, applied_views(applied@), gc, greset);
    assert(views(out@) =~= after_banner + pts);
    let ghost after_points = views(out@);

    // quote
    if quotes {
        let mut l = "\x1b[3m\"".to_string();
        l.append(quote(quote_idx));
        l.append("\"\x1b[0m");
        push_line(&mut out, l);
        push_line(&mut out, String::new());
    }
    let ghost q = if quotes {
        seq!["\x1b[3m\""@ + spec_quote(quote_idx as int) + "\"\x1b[0m"@, Seq::<char>::empty()]
    } else {
        Seq::<Seq<char>>::empty()
    };
    assert(views(out@) =~= after_points + q);
    let ghost after_quote = views(out@);

    // call to action (only if no fancy output)
    if !exclamations && !quotes && !big_text_on {
        push_line(&mut out, "Run `party` to see your total!".to_string());
        push_line(&mut out, String::new());
    }
    let ghost cta = if !exclamations && !quotes && !big_text_on {
        seq!["Run `party` to see your total!"@, Seq::<char>::empty()]
    } else {
        Seq::<Seq<char>>::empty()
    };
    assert(views(out@) =~= after_quote + cta);
    out
}

/// The party after a push, with its color, exclamation and quote drawn
/// at random among the six colors, ten exclamations and ten quotes; each is
/// drawn only when the party shows it (the color with the exclamation or
/// the big text). Which ones come up is left to chance; the lines are those
/// of `party_lines` for the draws.
pub fn display(
    total: u64,
    commits: u64,
    points_per_commit: u64,
    applied: &Vec<(u64, String)>,
    exclamations: bool,
    quotes: bool,
    big_text_on: bool,
) -> (r: Vec<String>)
    ensures
        exists|color: usize, exclamation_idx: usize, quote_idx: usize|
            color < 6 && exclamation_idx < 10 && quote_idx < 10 && views(r@) == spec_party_lines(
                total,
                commits,
                points_per_commit,
                applied_views(applied@),
                exclamations,
                quotes,
                big_text_on,
                color,
                exclamation_idx,
                quote_idx,
            ),
{
    let color = if exclamations || big_text_on {
        random_index(6)
    } else {
        0
    };
    let exclamation_idx = if exclamations && !big_text_on {
        random_index(10)
    } else {
        0
    };
    let quote_idx = if quotes {
        random_index(10)
    } else {
        0
    };
    party_lines(
        total,
        commits,
        points_per_commit,
        applied,
        exclamations,
        quotes,
        big_text_on,
        color,
        exclamation_idx,
        quote_idx,
    )
}

} // verus!
