//! Reading what `git` prints: remote refs, commit stats, patch-ids, and
//! building the arguments of the calls that list commits.

use vstd::prelude::*;

verus! {

/// whether `c` is whitespace, as `char::is_whitespace` has it (the
/// Unicode `White_Space` property)
pub open spec fn is_ws(c: char) -> bool {
    let n = c as int;
    ||| 9 <= n <= 13
    ||| n == 32
    ||| n == 0x85
    ||| n == 0xa0
    ||| n == 0x1680
    ||| 0x2000 <= n <= 0x200a
    ||| n == 0x2028
    ||| n == 0x2029
    ||| n == 0x202f
    ||| n == 0x205f
    ||| n == 0x3000
}

pub fn is_whitespace(c: char) -> (r: bool)
    ensures
        r == is_ws(c),
{
    let n = c as u32;
    (9 <= n && n <= 13) || n == 32 || n == 0x85 || n == 0xa0 || n == 0x1680 || (0x2000 <= n && n <= 0x200a)
        || n == 0x2028 || n == 0x2029 || n == 0x202f || n == 0x205f || n == 0x3000
}

/// the texts of a list of strings
pub open spec fn views(v: Seq<String>) -> Seq<Seq<char>> {
    v.map_values(|w: String| w@)
}

/// the words of `s`: its longest runs without whitespace, in order, as
/// `str::split_whitespace` gives them
pub open spec fn split_words(s: Seq<char>) -> Seq<Seq<char>>
    decreases s.len(),
{
    if s.len() == 0 {
        Seq::empty()
    } else {
        let rest = split_words(s.drop_last());
        let c = s.last();
        if is_ws(c) {
            rest
        } else if s.len() >= 2 && !is_ws(s[s.len() - 2]) {
            rest.update(rest.len() - 1, rest.last().push(c))
        } else {
            rest.push(seq![c])
        }
    }
}

/// the words of `s`
pub fn words(s: &str) -> (r: Vec<String>)
    ensures
        views(r@) == split_words(s@),
{
    let n = s.unicode_len();
    let mut r: Vec<String> = Vec::new();
    let mut start: usize = 0;
    let mut in_word = false;
    let mut i: usize = 0;
    while i < n
        invariant
            0 <= i <= n,
            n == s@.len(),
            start <= i,
            in_word <==> (i > 0 && !is_ws(s@[i - 1])),
            in_word ==> start < i && views(r@).push(s@.subrange(start as int, i as int)) == split_words(
                s@.take(i as int),
            ),
            !in_word ==> views(r@) == split_words(s@.take(i as int)),
        decreases n - i,
    {
        let c = s.get_char(i);
        assert(s@.take(i + 1).drop_last() =~= s@.take(i as int));
        assert(s@.take(i + 1).last() == c);
        if i > 0 {
            assert(s@.take(i + 1)[i - 1] == s@[i - 1]);
        }
        if is_whitespace(c) {
            if in_word {
                let w = s.substring_char(start, i).to_string();
                r.push(w);
                assert(views(r@) =~= views(r@.drop_last()).push(s@.subrange(start as int, i as int)));
                in_word = false;
            }
        } else {
            if !in_word {
                start = i;
                in_word = true;
                assert(s@.subrange(start as int, i + 1) =~= seq![c]);
            } else {
                assert(s@.subrange(start as int, i + 1) =~= s@.subrange(start as int, i as int).push(c));
                assert(views(r@).push(s@.subrange(start as int, i + 1)) =~= views(r@).push(
                    s@.subrange(start as int, i as int),
                ).update(views(r@).len() as int, s@.subrange(start as int, i as int).push(c)));
            }
        }
        i = i + 1;
    }
    assert(s@.take(n as int) =~= s@);
    if in_word {
        let w = s.substring_char(start, n).to_string();
        r.push(w);
        assert(views(r@) =~= views(r@.drop_last()).push(s@.subrange(start as int, n as int)));
    }
    r
}

/// `s` without its leading whitespace
pub open spec fn trim_start_seq(s: Seq<char>) -> Seq<char>
    decreases s.len(),
{
    if s.len() > 0 && is_ws(s[0]) {
        trim_start_seq(s.drop_first())
    } else {
        s
    }
}

/// `s` without its trailing whitespace
pub open spec fn trim_end_seq(s: Seq<char>) -> Seq<char>
    decreases s.len(),
{
    if s.len() > 0 && is_ws(s.last()) {
        trim_end_seq(s.drop_last())
    } else {
        s
    }
}

/// `s` without leading and trailing whitespace, as `str::trim` gives it
pub fn trim(s: &str) -> (r: String)
    ensures
        r@ == trim_end_seq(trim_start_seq(s@)),
{
    let n = s.unicode_len();
    let mut i: usize = 0;
    assert(s@.subrange(0, n as int) =~= s@);
    while i < n && is_whitespace(s.get_char(i))
        invariant
            0 <= i <= n,
            n == s@.len(),
            trim_start_seq(s@) == trim_start_seq(s@.subrange(i as int, n as int)),
        decreases n - i,
    {
        assert(s@.subrange(i as int, n as int).drop_first() =~= s@.subrange(i + 1, n as int));
        i = i + 1;
    }
    let mut j: usize = n;
    assert(trim_start_seq(s@) == s@.subrange(i as int, n as int));
    while j > i && is_whitespace(s.get_char(j - 1))
        invariant
            i <= j <= n,
            n == s@.len(),
            trim_end_seq(trim_start_seq(s@)) == trim_end_seq(s@.subrange(i as int, j as int)),
        decreases j,
    {
        assert(s@.subrange(i as int, j as int).drop_last() =~= s@.subrange(i as int, j - 1));
        j = j - 1;
    }
    s.substring_char(i, j).to_string()
}

/// whether `s` begins with `p`
pub open spec fn starts(s: Seq<char>, p: Seq<char>) -> bool {
    s.len() >= p.len() && s.subrange(0, p.len() as int) == p
}

/// whether `s` ends with `p`
pub open spec fn ends(s: Seq<char>, p: Seq<char>) -> bool {
    s.len() >= p.len() && s.subrange(s.len() - p.len(), s.len() as int) == p
}

pub fn starts_with(s: &str, p: &str) -> (r: bool)
    ensures
        r == starts(s@, p@),
{
    let n = s.unicode_len();
    let m = p.unicode_len();
    if m > n {
        return false;
    }
    let mut k: usize = 0;
    while k < m
        invariant
            0 <= k <= m <= n,
            n == s@.len(),
            m == p@.len(),
            forall|j: int| 0 <= j < k ==> s@[j] == p@[j],
        decreases m - k,
    {
        if s.get_char(k) != p.get_char(k) {
            assert(s@.subrange(0, m as int)[k as int] != p@[k as int]);
            return false;
        }
        k = k + 1;
    }
    assert(s@.subrange(0, m as int) =~= p@);
    true
}

pub fn ends_with(s: &str, p: &str) -> (r: bool)
    ensures
        r == ends(s@, p@),
{
    let n = s.unicode_len();
    let m = p.unicode_len();
    if m > n {
        return false;
    }
    let base = n - m;
    let mut k: usize = 0;
    while k < m
        invariant
            0 <= k <= m <= n,
            base == n - m,
            n == s@.len(),
            m == p@.len(),
            forall|j: int| 0 <= j < k ==> s@[base + j] == p@[j],
        decreases m - k,
    {
        if s.get_char(base + k) != p.get_char(k) {
            assert(s@.subrange(base as int, n as int)[k as int] != p@[k as int]);
            return false;
        }
        k = k + 1;
    }
    assert(s@.subrange(base as int, n as int) =~= p@);
    true
}

/// whether every character of `d` is an ASCII digit
pub open spec fn all_digits(d: Seq<char>) -> bool {
    forall|k: int| 0 <= k < d.len() ==> '0' <= #[trigger] d[k] <= '9'
}

/// the number the digits `d` spell
pub open spec fn digits_value(d: Seq<char>) -> nat
    decreases d.len(),
{
    if d.len() == 0 {
        0
    } else {
        digits_value(d.drop_last()) * 10 + (d.last() as int - '0' as int) as nat
    }
}

/// `s` read as a `u64` the way `str::parse` reads it: an optional `+`, then
/// one or more digits, of a value that fits
pub open spec fn spec_parse_u64(s: Seq<char>) -> Option<u64> {
    let d = if s.len() > 0 && s[0] == '+' {
        s.drop_first()
    } else {
        s
    };
    if d.len() > 0 && all_digits(d) && digits_value(d) <= u64::MAX {
        Some(digits_value(d) as u64)
    } else {
        None
    }
}

proof fn lemma_digits_value_grows(d: Seq<char>, k: int)
    requires
        0 <= k <= d.len(),
    ensures
        digits_value(d.take(k)) <= digits_value(d),
    decreases d.len() - k,
{
    if k < d.len() {
        lemma_digits_value_grows(d, k + 1);
        assert(d.take(k + 1).drop_last() =~= d.take(k));
    } else {
        assert(d.take(k) =~= d);
    }
}

pub fn parse_u64(s: &str) -> (r: Option<u64>)
    ensures
        r == spec_parse_u64(s@),
{
    let n = s.unicode_len();
    let mut i: usize = 0;
    if n > 0 && s.get_char(0) == '+' {
        i = 1;
    }
    let ghost d = if s@.len() > 0 && s@[0] == '+' {
        s@.drop_first()
    } else {
        s@
    };
    let first = i;
    assert(d =~= s@.subrange(first as int, n as int));
    if first == n {
        return None;
    }
    let mut v: u128 = 0;
    while i < n
        invariant
            first <= i <= n,
            n == s@.len(),
            d == s@.subrange(first as int, n as int),
            d == (if s@.len() > 0 && s@[0] == '+' {
                s@.drop_first()
            } else {
                s@
            }),
            all_digits(d.take(i - first)),
            v == digits_value(d.take(i - first)),
            v <= u64::MAX,
        decreases n - i,
    {
        let c = s.get_char(i);
        assert(d[i - first] == c);
        if c < '0' || c > '9' {
            assert(!('0' <= d[i - first] <= '9'));
            assert(!all_digits(d));
            assert(spec_parse_u64(s@) is None);
            return None;
        }
        let digit = (c as u32 - '0' as u32) as u128;
        assert(d.take(i - first + 1).drop_last() =~= d.take(i - first));
        v = v * 10 + digit;
        if v > u64::MAX as u128 {
            proof {
                lemma_digits_value_grows(d, i - first + 1);
                assert(digits_value(d) > u64::MAX);
                assert(spec_parse_u64(s@) is None);
            }
            return None;
        }
        i = i + 1;
    }
    assert(d.take(n - first) =~= d);
    Some(v as u64)
}

/// Lines are split at line endings that are either newlines (\n) or
/// sequences of a carriage return followed by a line feed (\r\n).
pub open spec fn lines_acc(s: Seq<char>, cur: Seq<char>, done: Seq<Seq<char>>) -> Seq<Seq<char>>
    decreases s.len(),
{
    if s.len() == 0 {
        if cur.len() > 0 {
            done.push(cur)
        } else {
            done
        }
    } else if s[0] == '\n' {
        let line = if cur.len() > 0 && cur.last() == '\r' {
            cur.drop_last()
        } else {
            cur
        };
        lines_acc(s.drop_first(), Seq::empty(), done.push(line))
    } else {
        lines_acc(s.drop_first(), cur.push(s[0]), done)
    }
}

/// the lines of `s`, as `str::lines` gives them: split at each `\n`, a
/// `\r` before it dropped, and the final line ending optional
pub open spec fn split_lines(s: Seq<char>) -> Seq<Seq<char>> {
    lines_acc(s, Seq::empty(), Seq::empty())
}

/// the lines of `s`, as `split_lines` gives them
fn lines_of(s: &str) -> (r: Vec<String>)
    ensures
        views(r@) == split_lines(s@),
{
    let n = s.unicode_len();
    let mut r: Vec<String> = Vec::new();
    let mut start: usize = 0;
    let mut i: usize = 0;
    assert(s@.subrange(0, n as int) =~= s@);
    assert(s@.subrange(0, 0) =~= Seq::<char>::empty());
    assert(views(r@) =~= Seq::<Seq<char>>::empty());
    while i < n
        invariant
            0 <= start <= i <= n,
            n == s@.len(),
            lines_acc(s@.subrange(i as int, n as int), s@.subrange(start as int, i as int), views(r@))
                == split_lines(s@),
        decreases n - i,
    {
        let c = s.get_char(i);
        let ghost rest = s@.subrange(i as int, n as int);
        assert(rest[0] == c);
        assert(rest.drop_first() =~= s@.subrange(i + 1, n as int));
        if c == '\n' {
            let end: usize = if i > start && s.get_char(i - 1) == '\r' {
                i - 1
            } else {
                i
            };
            let ghost cur = s@.subrange(start as int, i as int);
            assert(s@.subrange(start as int, end as int) =~= if cur.len() > 0 && cur.last() == '\r' {
                cur.drop_last()
            } else {
                cur
            });
            let line = s.substring_char(start, end).to_string();
            let ghost before = views(r@);
            r.push(line);
            assert(views(r@) =~= before.push(s@.subrange(start as int, end as int)));
            start = i + 1;
            assert(s@.subrange(start as int, i + 1) =~= Seq::<char>::empty());
        } else {
            assert(s@.subrange(start as int, i + 1) =~= s@.subrange(start as int, i as int).push(c));
        }
        i = i + 1;
    }
    assert(s@.subrange(n as int, n as int) =~= Seq::<char>::empty());
    if start < n {
        let line = s.substring_char(start, n).to_string();
        let ghost before = views(r@);
        r.push(line);
        assert(views(r@) =~= before.push(s@.subrange(start as int, n as int)));
    }
    r
}

} // verus!

verus! {

/// pairs of texts
pub open spec fn pair_views(v: Seq<(String, String)>) -> Seq<(Seq<char>, Seq<char>)> {
    v.map_values(|p: (String, String)| (p.0@, p.1@))
}

/// The branch and sha a line of `git for-each-ref --format='%(refname:short)
/// %(objectname)' refs/remotes/origin/` names: the first word without its
/// `origin/`, and the second word. Lines with fewer words, other remotes
/// and `HEAD` name none.
pub open spec fn spec_remote_ref(line: Seq<char>) -> Option<(Seq<char>, Seq<char>)> {
    let w = split_words(line);
    if w.len() >= 2 && starts(w[0], "origin/"@) {
        let branch = w[0].subrange("origin/"@.len() as int, w[0].len() as int);
        if branch != "HEAD"@ {
            Some((branch, w[1]))
        } else {
            None
        }
    } else {
        None
    }
}

pub fn remote_ref(line: &str) -> (r: Option<(String, String)>)
    ensures
        match r {
            Some(p) => spec_remote_ref(line@) == Some((p.0@, p.1@)),
            None => spec_remote_ref(line@) is None,
        },
{
    let w = words(line);
    if w.len() < 2 {
        return None;
    }
    assert(views(w@)[0] == w@[0]@ && views(w@)[1] == w@[1]@);
    let first = w[0].as_str();
    if !starts_with(first, "origin/") {
        return None;
    }
    let plen = "origin/".unicode_len();
    let branch = first.substring_char(plen, first.unicode_len()).to_string();
    let head = "HEAD".to_string();
    if branch == head {
        return None;
    }
    Some((branch, w[1].clone()))
}

/// the refs named by a list of lines, in order
pub open spec fn refs_in(lines: Seq<Seq<char>>) -> Seq<(Seq<char>, Seq<char>)>
    decreases lines.len(),
{
    if lines.len() == 0 {
        Seq::empty()
    } else {
        refs_in(lines.drop_last()) + match spec_remote_ref(lines.last()) {
            Some(p) => seq![p],
            None => Seq::empty(),
        }
    }
}

/// the remote branches and their shas in the output of `git for-each-ref`
pub fn remote_refs(output: &str) -> (r: Vec<(String, String)>)
    ensures
        pair_views(r@) == refs_in(split_lines(output@)),
{
    let lines = lines_of(output);
    let ghost ls = views(lines@);
    let mut r: Vec<(String, String)> = Vec::new();
    let mut i: usize = 0;
    while i < lines.len()
        invariant
            0 <= i <= lines@.len(),
            ls == views(lines@),
            pair_views(r@) == refs_in(ls.take(i as int)),
        decreases lines@.len() - i,
    {
        assert(ls.take(i + 1).drop_last() =~= ls.take(i as int));
        assert(ls.take(i + 1).last() == lines@[i as int]@);
        match remote_ref(lines[i].as_str()) {
            Some(p) => {
                r.push(p);
                assert(pair_views(r@) =~= refs_in(ls.take(i + 1)));
            },
            None => {
                assert(refs_in(ls.take(i + 1)) =~= refs_in(ls.take(i as int)));
            },
        }
        i = i + 1;
    }
    assert(ls.take(lines@.len() as int) =~= ls);
    r
}

/// a word read as a number, or 0
pub open spec fn number_or_zero(w: Seq<char>) -> u64 {
    match spec_parse_u64(w) {
        Some(v) => v,
        None => 0,
    }
}

/// The insertions and deletions a `git show --stat` summary line reports,
/// looking at the first `n` pairs of neighbouring words: a number followed
/// by a word starting with `insertion` or `deletion` sets that count (a
/// later pair wins).
pub open spec fn stat_counts(w: Seq<Seq<char>>, n: nat) -> (u64, u64)
    decreases n,
{
    if n == 0 {
        (0, 0)
    } else {
        let (ins, del) = stat_counts(w, (n - 1) as nat);
        let k = n - 1;
        if k + 1 < w.len() {
            if starts(w[k + 1], "insertion"@) {
                (number_or_zero(w[k]), del)
            } else if starts(w[k + 1], "deletion"@) {
                (ins, number_or_zero(w[k]))
            } else {
                (ins, del)
            }
        } else {
            (ins, del)
        }
    }
}

/// the insertions and deletions the last line of a `git show --stat`
/// output reports, if it has a line at all
pub open spec fn spec_stat(output: Seq<char>) -> Option<(u64, u64)> {
    let lines = split_lines(output);
    if lines.len() == 0 {
        None
    } else {
        let w = split_words(lines.last());
        Some(stat_counts(w, w.len()))
    }
}

pub fn stat_of(output: &str) -> (r: Option<(u64, u64)>)
    ensures
        r == spec_stat(output@),
{
    let lines = lines_of(output);
    if lines.len() == 0 {
        return None;
    }
    let last = lines.len() - 1;
    assert(views(lines@).last() == lines@[last as int]@);
    let w = words(lines[last].as_str());
    let ghost ws = views(w@);
    let mut ins: u64 = 0;
    let mut del: u64 = 0;
    let mut k: usize = 0;
    while k < w.len()
        invariant
            0 <= k <= w@.len(),
            ws == views(w@),
            (ins, del) == stat_counts(ws, k as nat),
        decreases w@.len() - k,
    {
        if k + 1 < w.len() {
            assert(ws[k as int] == w@[k as int]@ && ws[k + 1] == w@[k + 1]@);
            if starts_with(w[k + 1].as_str(), "insertion") {
                ins = match parse_u64(w[k].as_str()) {
                    Some(v) => v,
                    None => 0,
                };
            } else if starts_with(w[k + 1].as_str(), "deletion") {
                del = match parse_u64(w[k].as_str()) {
                    Some(v) => v,
                    None => 0,
                };
            }
        }
        k = k + 1;
    }
    Some((ins, del))
}

/// the patch-id in the output of `git patch-id`: its first word
pub fn patch_id_of(output: &str) -> (r: Option<String>)
    ensures
        match r {
            Some(p) => split_words(output@).len() > 0 && p@ == split_words(output@)[0],
            None => split_words(output@).len() == 0,
        },
{
    let w = words(output);
    if w.len() == 0 {
        None
    } else {
        assert(views(w@)[0] == w@[0]@);
        Some(w[0].clone())
    }
}

/// whether a remote ref (`refs/remotes/origin/...`) is neither `HEAD` nor
/// one of the branches being pushed
pub open spec fn is_other_ref(r: Seq<char>, pushed: Seq<Seq<char>>) -> bool {
    &&& !exists|i: int| 0 <= i < pushed.len() && ends(r, seq!['/'] + #[trigger] pushed[i])
    &&& !ends(r, "/HEAD"@)
}

pub fn is_other_remote_ref(r: &str, pushed: &Vec<String>) -> (b: bool)
    ensures
        b == is_other_ref(r@, views(pushed@)),
{
    proof {
        reveal_strlit("/");
    }
    let mut i: usize = 0;
    while i < pushed.len()
        invariant
            0 <= i <= pushed@.len(),
            "/"@ == seq!['/'],
            forall|j: int| 0 <= j < i ==> !ends(r@, seq!['/'] + #[trigger] views(pushed@)[j]),
        decreases pushed@.len() - i,
    {
        let mut suffix = "/".to_string();
        suffix.append(pushed[i].as_str());
        assert(views(pushed@)[i as int] == pushed@[i as int]@);
        if ends_with(r, suffix.as_str()) {
            return false;
        }
        i = i + 1;
    }
    !ends_with(r, "/HEAD")
}

/// the lines of `git for-each-ref --format=%(refname) refs/remotes/origin/`
/// that name refs other than `HEAD` and the pushed branches
pub open spec fn other_refs_in(lines: Seq<Seq<char>>, pushed: Seq<Seq<char>>) -> Seq<Seq<char>> {
    lines.filter(|l: Seq<char>| is_other_ref(l, pushed))
}

pub fn other_remote_refs(output: &str, pushed: &Vec<String>) -> (r: Vec<String>)
    ensures
        views(r@) == other_refs_in(split_lines(output@), views(pushed@)),
{
    let lines = lines_of(output);
    let ghost ls = views(lines@);
    let mut r: Vec<String> = Vec::new();
    let mut i: usize = 0;
    while i < lines.len()
        invariant
            0 <= i <= lines@.len(),
            ls == views(lines@),
            views(r@) == other_refs_in(ls.take(i as int), views(pushed@)),
        decreases lines@.len() - i,
    {
        assert(ls.take(i + 1).drop_last() =~= ls.take(i as int));
        assert(ls.take(i + 1).last() == lines@[i as int]@);
        reveal(Seq::filter);
        if is_other_remote_ref(lines[i].as_str(), pushed) {
            r.push(lines[i].clone());
            assert(views(r@) =~= views(r@.drop_last()).push(lines@[i as int]@));
        }
        i = i + 1;
    }
    assert(ls.take(lines@.len() as int) =~= ls);
    r
}

/// the arguments of `git rev-list` that list the commits on the pushed
/// branches that no other remote branch reaches
pub open spec fn spec_unique_commits_args(branches: Seq<Seq<char>>) -> Seq<Seq<char>> {
    seq!["rev-list"@] + branches.map_values(|b: Seq<char>| "refs/remotes/origin/"@ + b) + seq!["--not"@]
        + branches.map_values(|b: Seq<char>| "--exclude=origin/"@ + b) + seq!["--remotes=origin"@]
}

pub fn unique_commits_args(branches: &Vec<String>) -> (r: Vec<String>)
    ensures
        views(r@) == spec_unique_commits_args(views(branches@)),
{
    let ghost bs = views(branches@);
    let mut args: Vec<String> = Vec::new();
    args.push("rev-list".to_string());
    let mut i: usize = 0;
    while i < branches.len()
        invariant
            0 <= i <= branches@.len(),
            bs == views(branches@),
            views(args@) == seq!["rev-list"@] + bs.take(i as int).map_values(
                |b: Seq<char>| "refs/remotes/origin/"@ + b,
            ),
        decreases branches@.len() - i,
    {
        let mut a = "refs/remotes/origin/".to_string();
        a.append(branches[i].as_str());
        let ghost prev = views(args@);
        let ghost av = a@;
        args.push(a);
        assert(views(args@) =~= prev.push(av));
        assert(bs[i as int] == branches@[i as int]@);
        assert(bs.take(i + 1) =~= bs.take(i as int).push(bs[i as int]));
        assert(bs.take(i + 1).map_values(|b: Seq<char>| "refs/remotes/origin/"@ + b) =~= bs.take(i as int).map_values(
            |b: Seq<char>| "refs/remotes/origin/"@ + b,
        ).push(av));
        assert(views(args@) =~= seq!["rev-list"@] + bs.take(i + 1).map_values(
            |b: Seq<char>| "refs/remotes/origin/"@ + b,
        ));
        i = i + 1;
    }
    assert(bs.take(branches@.len() as int) =~= bs);
    let ghost before_not = views(args@);
    args.push("--not".to_string());
    assert(views(args@) =~= before_not.push("--not"@));
    let ghost head = views(args@);
    let mut j: usize = 0;
    while j < branches.len()
        invariant
            0 <= j <= branches@.len(),
            bs == views(branches@),
            views(args@) == head + bs.take(j as int).map_values(|b: Seq<char>| "--exclude=origin/"@ + b),
        decreases branches@.len() - j,
    {
        let mut a = "--exclude=origin/".to_string();
        a.append(branches[j].as_str());
        let ghost prev = views(args@);
        let ghost av = a@;
        args.push(a);
        assert(views(args@) =~= prev.push(av));
        assert(bs[j as int] == branches@[j as int]@);
        assert(bs.take(j + 1) =~= bs.take(j as int).push(bs[j as int]));
        assert(bs.take(j + 1).map_values(|b: Seq<char>| "--exclude=origin/"@ + b) =~= bs.take(j as int).map_values(
            |b: Seq<char>| "--exclude=origin/"@ + b,
        ).push(av));
        assert(views(args@) =~= head + bs.take(j + 1).map_values(|b: Seq<char>| "--exclude=origin/"@ + b));
        j = j + 1;
    }
    assert(bs.take(branches@.len() as int) =~= bs);
    let ghost before_end = views(args@);
    args.push("--remotes=origin".to_string());
    assert(views(args@) =~= before_end.push("--remotes=origin"@));
    assert(views(args@) =~= spec_unique_commits_args(bs));
    args
}

} // verus!

verus! {

/// the shas `git rev-list` prints, one per line
pub fn shas_of(output: &str) -> (r: Vec<String>)
    ensures
        views(r@) == split_lines(output@),
{
    lines_of(output)
}

} // verus!
