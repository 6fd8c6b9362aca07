//! ANSI styling of party output.

use vstd::prelude::*;

verus! {

/// `s` between an opening and a closing escape sequence
pub open spec fn styled(open: Seq<char>, s: Seq<char>, close: Seq<char>) -> Seq<char> {
    open + s + close
}

fn wrap(open: &str, s: &str, close: &str) -> (r: String)
    ensures
        r@ == styled(open@, s@, close@),
{
    let mut out = open.to_string();
    out.append(s);
    out.append(close);
    out
}

/// bold text
pub fn bold(s: &str) -> (r: String)
    ensures
        r@ == styled("\x1b[1m"@, s@, "\x1b[22m"@),
{
    wrap("\x1b[1m", s, "\x1b[22m")
}

/// italic text
pub fn italic(s: &str) -> (r: String)
    ensures
        r@ == styled("\x1b[3m"@, s@, "\x1b[22m"@),
{
    wrap("\x1b[3m", s, "\x1b[22m")
}

/// dim text
pub fn dim(s: &str) -> (r: String)
    ensures
        r@ == styled("\x1b[2m"@, s@, "\x1b[22m"@),
{
    wrap("\x1b[2m", s, "\x1b[22m")
}

/// text in the default color
pub fn white(s: &str) -> (r: String)
    ensures
        r@ == styled("\x1b[39m"@, s@, ""@),
{
    wrap("\x1b[39m", s, "")
}

/// green text
pub fn green(s: &str) -> (r: String)
    ensures
        r@ == styled("\x1b[32m"@, s@, "\x1b[39m"@),
{
    wrap("\x1b[32m", s, "\x1b[39m")
}

/// magenta text
pub fn magenta(s: &str) -> (r: String)
    ensures
        r@ == styled("\x1b[35m"@, s@, "\x1b[39m"@),
{
    wrap("\x1b[35m", s, "\x1b[39m")
}

/// cyan text
pub fn cyan(s: &str) -> (r: String)
    ensures
        r@ == styled("\x1b[36m"@, s@, "\x1b[39m"@),
{
    wrap("\x1b[36m", s, "\x1b[39m")
}

/// yellow text
pub fn yellow(s: &str) -> (r: String)
    ensures
        r@ == styled("\x1b[33m"@, s@, "\x1b[39m"@),
{
    wrap("\x1b[33m", s, "\x1b[39m")
}

/// gray text
pub fn gray(s: &str) -> (r: String)
    ensures
        r@ == styled("\x1b[90m"@, s@, "\x1b[39m"@),
{
    wrap("\x1b[90m", s, "\x1b[39m")
}

/// bright magenta text
pub fn bright_magenta(s: &str) -> (r: String)
    ensures
        r@ == styled("\x1b[95m"@, s@, "\x1b[39m"@),
{
    wrap("\x1b[95m", s, "\x1b[39m")
}

/// bright yellow text
pub fn bright_yellow(s: &str) -> (r: String)
    ensures
        r@ == styled("\x1b[93m"@, s@, "\x1b[39m"@),
{
    wrap("\x1b[93m", s, "\x1b[39m")
}

} // verus!
