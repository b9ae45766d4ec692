//! Tagged-text markup: `<h1>..</h1>`, `<h2>..</h2>`, `<c>..</c>` and `<i>..</i>`
//! turn the enclosed text into one styled run.
use vstd::prelude::*;

verus! {

/// The style of one run of text.
#[derive(Clone, Copy, Debug, PartialEq, Eq, Structural)]
pub enum Style {
    Plain,
    Heading1,
    Heading2,
    Command,
    Italic,
}

/// A piece of a line drawn in one style.
#[derive(Clone, Debug)]
pub struct Run {
    pub text: String,
    pub style: Style,
}

impl View for Run {
    type V = (Seq<char>, Style);

    open spec fn view(&self) -> (Seq<char>, Style) {
        (self.text@, self.style)
    }
}

/// The views of a sequence of runs.
pub open spec fn runs_view(rs: Seq<Run>) -> Seq<(Seq<char>, Style)> {
    rs.map_values(|r: Run| r@)
}

/// The opening tag of a styled kind.
pub open spec fn open_tag(k: Style) -> Seq<char> {
    match k {
        Style::Heading1 => seq!['<', 'h', '1', '>'],
        Style::Heading2 => seq!['<', 'h', '2', '>'],
        Style::Command => seq!['<', 'c', '>'],
        Style::Italic => seq!['<', 'i', '>'],
        Style::Plain => seq![],
    }
}

/// The closing tag of a styled kind.
pub open spec fn close_tag(k: Style) -> Seq<char> {
    match k {
        Style::Heading1 => seq!['<', '/', 'h', '1', '>'],
        Style::Heading2 => seq!['<', '/', 'h', '2', '>'],
        Style::Command => seq!['<', '/', 'c', '>'],
        Style::Italic => seq!['<', '/', 'i', '>'],
        Style::Plain => seq![],
    }
}

/// `t` occurs in `s` at position `i`.
pub open spec fn occurs_at(s: Seq<char>, t: Seq<char>, i: int) -> bool {
    0 <= i && i + t.len() <= s.len() && s.subrange(i, i + t.len()) == t
}

/// The first position at or after `i` where `t` occurs in `s`.
pub open spec fn find_pos(s: Seq<char>, t: Seq<char>, i: int) -> Option<int>
    decreases s.len() + 1 - i,
{
    if i < 0 || i + t.len() > s.len() {
        None
    } else if occurs_at(s, t, i) {
        Some(i)
    } else {
        find_pos(s, t, i + 1)
    }
}

/// The styled kind whose opening tag is looked for first in `s`: heading 1,
/// then heading 2, then command name, then italic.
pub open spec fn first_tag_of(s: Seq<char>) -> Option<Style> {
    if find_pos(s, open_tag(Style::Heading1), 0) is Some {
        Some(Style::Heading1)
    } else if find_pos(s, open_tag(Style::Heading2), 0) is Some {
        Some(Style::Heading2)
    } else if find_pos(s, open_tag(Style::Command), 0) is Some {
        Some(Style::Command)
    } else if find_pos(s, open_tag(Style::Italic), 0) is Some {
        Some(Style::Italic)
    } else {
        None
    }
}

/// One run of `t` in style `k`, or nothing when `t` is empty.
pub open spec fn run_if_nonempty(t: Seq<char>, k: Style) -> Seq<(Seq<char>, Style)> {
    if t.len() == 0 {
        seq![]
    } else {
        seq![(t, k)]
    }
}

pub proof fn lemma_find_pos(s: Seq<char>, t: Seq<char>, i: int)
    ensures
        find_pos(s, t, i) matches Some(p) ==> i <= p && occurs_at(s, t, p),
    decreases s.len() + 1 - i,
{
    if !(i < 0 || i + t.len() > s.len()) && !occurs_at(s, t, i) {
        lemma_find_pos(s, t, i + 1);
    }
}

/// The runs of one line. The first present kind (in priority order) is
/// resolved at its first opening tag: the text before it is parsed again, the
/// text up to the matching closing tag is one literal run in that style, and
/// parsing goes on after the closing tag. Without a closing tag the rest of
/// the line from the opening tag on is plain text.
pub open spec fn parse_runs(s: Seq<char>) -> Seq<(Seq<char>, Style)>
    decreases s.len(),
{
    match first_tag_of(s) {
        None => run_if_nonempty(s, Style::Plain),
        Some(k) => {
            let p = find_pos(s, open_tag(k), 0)->Some_0;
            let b = p + open_tag(k).len();
            proof {
                lemma_find_pos(s, open_tag(k), 0);
            }
            match find_pos(s, close_tag(k), b) {
                None => parse_runs(s.subrange(0, p)) + seq![(s.subrange(p, s.len() as int), Style::Plain)],
                Some(q) => {
                    proof {
                        lemma_find_pos(s, close_tag(k), b);
                    }
                    parse_runs(s.subrange(0, p)) + run_if_nonempty(s.subrange(b, q), k) + parse_runs(
                        s.subrange(q + close_tag(k).len(), s.len() as int),
                    )
                },
            }
        },
    }
}


fn open_tag_str(k: Style) -> (r: &'static str)
    requires
        k != Style::Plain,
    ensures
        r@ == open_tag(k),
{
    proof {
        reveal_strlit("<h1>");
        reveal_strlit("<h2>");
        reveal_strlit("<c>");
        reveal_strlit("<i>");
    }
    match k {
        Style::Heading1 => "<h1>",
        Style::Heading2 => "<h2>",
        Style::Command => "<c>",
        _ => "<i>",
    }
}

fn close_tag_str(k: Style) -> (r: &'static str)
    requires
        k != Style::Plain,
    ensures
        r@ == close_tag(k),
{
    proof {
        reveal_strlit("</h1>");
        reveal_strlit("</h2>");
        reveal_strlit("</c>");
        reveal_strlit("</i>");
    }
    match k {
        Style::Heading1 => "</h1>",
        Style::Heading2 => "</h2>",
        Style::Command => "</c>",
        _ => "</i>",
    }
}

/// Whether `t` occurs in `s` at character position `i`.
pub fn occurs_at_pos(s: &str, t: &str, i: usize) -> (r: bool)
    ensures
        r == occurs_at(s@, t@, i as int),
{
    let slen = s.unicode_len();
    let tlen = t.unicode_len();
    if tlen > slen || i > slen - tlen {
        return false;
    }
    let mut k: usize = 0;
    while k < tlen
        invariant
            slen == s@.len(),
            tlen == t@.len(),
            i + tlen <= slen,
            k <= tlen,
            forall|m: int| 0 <= m < k ==> s@[i + m] == t@[m],
        decreases tlen - k,
    {
        if s.get_char(i + k) != t.get_char(k) {
            assert(s@.subrange(i as int, i + tlen)[k as int] != t@[k as int]);
            return false;
        }
        k = k + 1;
    }
    assert(s@.subrange(i as int, i + tlen) =~= t@);
    true
}

/// The first character position at or after `from` where `t` occurs in `s`.
pub fn find_from(s: &str, t: &str, from: usize) -> (r: Option<usize>)
    ensures
        match r {
            Some(p) => find_pos(s@, t@, from as int) == Some(p as int),
            None => find_pos(s@, t@, from as int) is None,
        },
{
    let slen = s.unicode_len();
    let tlen = t.unicode_len();
    if tlen > slen {
        return None;
    }
    if from > slen - tlen {
        return None;
    }
    let mut i: usize = from;
    loop
        invariant
            slen == s@.len(),
            tlen == t@.len(),
            tlen <= slen,
            from <= i <= slen - tlen,
            find_pos(s@, t@, from as int) == find_pos(s@, t@, i as int),
        decreases slen - tlen - i,
    {
        if occurs_at_pos(s, t, i) {
            return Some(i);
        }
        if i == slen - tlen {
            assert(find_pos(s@, t@, i + 1) is None);
            return None;
        }
        i = i + 1;
    }
}

/// The kind of markup that is resolved first in `s`, if any opening tag occurs.
pub fn first_tag(s: &str) -> (r: Option<Style>)
    ensures
        r == first_tag_of(s@),
{
    if find_from(s, open_tag_str(Style::Heading1), 0).is_some() {
        Some(Style::Heading1)
    } else if find_from(s, open_tag_str(Style::Heading2), 0).is_some() {
        Some(Style::Heading2)
    } else if find_from(s, open_tag_str(Style::Command), 0).is_some() {
        Some(Style::Command)
    } else if find_from(s, open_tag_str(Style::Italic), 0).is_some() {
        Some(Style::Italic)
    } else {
        None
    }
}

fn push_run(text: &mut Vec<Run>, s: &str, style: Style)
    ensures
        runs_view(final(text)@) == runs_view(old(text)@) + run_if_nonempty(s@, style),
{
    if s.unicode_len() > 0 {
        text.push(Run { text: String::from_str(s), style });
    }
    assert(runs_view(text@) =~= runs_view(old(text)@) + run_if_nonempty(s@, style));
}

/// Appends the runs of `line` to `text`.
pub fn construct_line(line: &str, text: &mut Vec<Run>)
    ensures
        runs_view(final(text)@) == runs_view(old(text)@) + parse_runs(line@),
    decreases line@.len(),
{
    let len = line.unicode_len();
    match first_tag(line) {
        None => {
            push_run(text, line, Style::Plain);
        },
        Some(k) => {
            let open = open_tag_str(k);
            let close = close_tag_str(k);
            proof {
                lemma_find_pos(line@, open@, 0);
            }
            let p = find_from(line, open, 0).unwrap();
            let b = p + open.unicode_len();
            let before = line.substring_char(0, p);
            construct_line(before, text);
            match find_from(line, close, b) {
                None => {
                    let rest = line.substring_char(p, len);
                    push_run(text, rest, Style::Plain);
                    assert(rest@.len() > 0);
                    assert(parse_runs(line@) == parse_runs(before@) + seq![(rest@, Style::Plain)]);
                    assert(runs_view(text@) =~= runs_view(old(text)@) + parse_runs(line@));
                },
                Some(q) => {
                    proof {
                        lemma_find_pos(line@, close@, b as int);
                    }
                    let between = line.substring_char(b, q);
                    push_run(text, between, k);
                    let after = line.substring_char(q + close.unicode_len(), len);
                    construct_line(after, text);
                    assert(parse_runs(line@) == parse_runs(before@) + run_if_nonempty(between@, k)
                        + parse_runs(after@));
                    assert(runs_view(text@) =~= runs_view(old(text)@) + parse_runs(line@));
                },
            }
        },
    }
}

/// The runs of each line, in order.
pub fn construct_message(lines: &Vec<String>) -> (r: Vec<Vec<Run>>)
    ensures
        r@.len() == lines@.len(),
        forall|i: int| 0 <= i < lines@.len() ==> runs_view(#[trigger] r@[i]@) == parse_runs(lines@[i]@),
{
    let mut texts: Vec<Vec<Run>> = Vec::new();
    let mut i: usize = 0;
    while i < lines.len()
        invariant
            i <= lines@.len(),
            texts@.len() == i,
            forall|j: int| 0 <= j < i ==> runs_view(#[trigger] texts@[j]@) == parse_runs(lines@[j]@),
        decreases lines@.len() - i,
    {
        let mut text: Vec<Run> = Vec::new();
        assert(runs_view(text@) =~= seq![]);
        construct_line(lines[i].as_str(), &mut text);
        assert(runs_view(text@) =~= parse_runs(lines@[i as int]@));
        texts.push(text);
        i = i + 1;
    }
    texts
}

} // verus!
