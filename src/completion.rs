//! Completion of `cd` command lines from the subdirectories of the working
//! directory.
use vstd::prelude::*;
use crate::command::{cd_str, cd_word};
use crate::text::{push_char, same_text, split_words, strings_view, words};

verus! {

/// Which directory to list to complete a command line, and how the typed
/// argument splits into that directory and the start of a name.
#[derive(Clone, Debug)]
pub struct CompletionQuery {
    /// The directory whose subdirectories are offered.
    pub dir: String,
    /// The typed argument of `cd` up to and including its last `/`.
    pub prefix: String,
    /// The typed argument after its last `/`: the start of a directory name.
    pub partial: String,
}

/// The argument of a `cd` whose words are `ws`, or nothing.
pub open spec fn typed_prefix(ws: Seq<Seq<char>>) -> Seq<char> {
    if ws.len() > 1 {
        ws[1]
    } else {
        seq![]
    }
}

/// The length of the part of `a` up to and including its last `/`; 0 when
/// `a` holds no `/`.
pub open spec fn split_point(a: Seq<char>) -> int
    decreases a.len(),
{
    if a.len() == 0 {
        0
    } else if a.last() == '/' {
        a.len() as int
    } else {
        split_point(a.drop_last())
    }
}

pub proof fn lemma_split_point(a: Seq<char>)
    ensures
        0 <= split_point(a) <= a.len(),
    decreases a.len(),
{
    if a.len() > 0 && a.last() != '/' {
        lemma_split_point(a.drop_last());
    }
}

/// The directory part of a typed argument: up to and including its last `/`.
pub open spec fn dir_part(a: Seq<char>) -> Seq<char> {
    a.subrange(0, split_point(a))
}

/// The name part of a typed argument: what follows its last `/`.
pub open spec fn name_part(a: Seq<char>) -> Seq<char> {
    a.subrange(split_point(a), a.len() as int)
}

/// `name` begins with `start`.
pub open spec fn begins_with(name: Seq<char>, start: Seq<char>) -> bool {
    start.len() <= name.len() && name.subrange(0, start.len() as int) == start
}

/// Whether the directory `name` is offered for the typed name start `partial`.
pub open spec fn offered(partial: Seq<char>, name: Seq<char>) -> bool {
    !hidden(name) && begins_with(name, partial)
}

/// The directory listed to complete `prefix` in the working directory `path`.
pub open spec fn listed_dir(path: Seq<char>, prefix: Seq<char>) -> Seq<char> {
    path + seq!['/'] + prefix
}

/// Whether a directory name is hidden.
pub open spec fn hidden(name: Seq<char>) -> bool {
    name.len() > 0 && name[0] == '.'
}

/// The command line offered for the subdirectory `name`.
pub open spec fn replacement(prefix: Seq<char>, name: Seq<char>) -> Seq<char> {
    cd_word() + seq![' '] + prefix + name + seq!['/']
}

/// The command lines offered for the directory names `names`: those offered
/// for `partial`, in order.
pub open spec fn replacements(prefix: Seq<char>, partial: Seq<char>, names: Seq<Seq<char>>) -> Seq<
    Seq<char>,
>
    decreases names.len(),
{
    if names.len() == 0 {
        seq![]
    } else if offered(partial, names.last()) {
        replacements(prefix, partial, names.drop_last()).push(replacement(prefix, names.last()))
    } else {
        replacements(prefix, partial, names.drop_last())
    }
}

/// The labels of the candidates: the names offered for `partial`, in order.
pub open spec fn labels(partial: Seq<char>, names: Seq<Seq<char>>) -> Seq<Seq<char>>
    decreases names.len(),
{
    if names.len() == 0 {
        seq![]
    } else if offered(partial, names.last()) {
        labels(partial, names.drop_last()).push(names.last())
    } else {
        labels(partial, names.drop_last())
    }
}

pub proof fn lemma_labels_len(prefix: Seq<char>, partial: Seq<char>, names: Seq<Seq<char>>)
    ensures
        replacements(prefix, partial, names).len() == labels(partial, names).len(),
    decreases names.len(),
{
    if names.len() > 0 {
        lemma_labels_len(prefix, partial, names.drop_last());
    }
}

/// Which directory to list to complete the command line `input` in the
/// working directory `path`: only a line whose first word is `cd` is
/// completed. Its argument splits at its last `/` into the directory to list
/// (under `path`) and the start of the name to complete.
pub fn create_completion(input: &str, path: &str) -> (r: Option<CompletionQuery>)
    ensures
        match r {
            None => words(input@).len() == 0 || words(input@)[0] != cd_word(),
            Some(q) => {
                &&& words(input@).len() > 0
                &&& words(input@)[0] == cd_word()
                &&& q.prefix@ == dir_part(typed_prefix(words(input@)))
                &&& q.partial@ == name_part(typed_prefix(words(input@)))
                &&& q.dir@ == listed_dir(path@, q.prefix@)
            },
        },
{
    let ws = split_words(input);
    if ws.len() == 0 || !same_text(ws[0].as_str(), cd_str()) {
        return None;
    }
    let arg = if ws.len() > 1 {
        ws[1].clone()
    } else {
        String::new()
    };
    let a = arg.as_str();
    let n = a.unicode_len();
    let mut k: usize = n;
    proof {
        assert(a@.subrange(0, n as int) =~= a@);
    }
    while k > 0 && a.get_char(k - 1) != '/'
        invariant
            n == a@.len(),
            k <= n,
            split_point(a@) == split_point(a@.subrange(0, k as int)),
        decreases k,
    {
        assert(a@.subrange(0, k as int).drop_last() =~= a@.subrange(0, k - 1));
        k = k - 1;
    }
    proof {
        if k > 0 {
            assert(a@.subrange(0, k as int).last() == '/');
        }
    }
    let prefix = String::from_str(a.substring_char(0, k));
    let partial = String::from_str(a.substring_char(k, n));
    let mut dir = String::from_str(path);
    push_char(&mut dir, '/');
    dir.append(prefix.as_str());
    Some(CompletionQuery { dir, prefix, partial })
}

/// Whether `name` begins with `start`.
pub fn begins_with_text(name: &str, start: &str) -> (r: bool)
    ensures
        r == begins_with(name@, start@),
{
    let n = start.unicode_len();
    if n > name.unicode_len() {
        return false;
    }
    let mut i: usize = 0;
    while i < n
        invariant
            n == start@.len(),
            n <= name@.len(),
            i <= n,
            forall|j: int| 0 <= j < i ==> name@[j] == start@[j],
        decreases n - i,
    {
        if name.get_char(i) != start.get_char(i) {
            assert(name@.subrange(0, n as int)[i as int] != start@[i as int]);
            return false;
        }
        i = i + 1;
    }
    assert(name@.subrange(0, n as int) =~= start@);
    true
}

fn is_hidden(name: &str) -> (r: bool)
    ensures
        r == hidden(name@),
{
    name.unicode_len() > 0 && name.get_char(0) == '.'
}

/// The candidates for the subdirectories `names` of the listed directory:
/// for each name that is not hidden and begins with `partial`, in order, the
/// command line `cd <prefix><name>/` and the name as its label.
pub fn cd_completion(prefix: &str, partial: &str, names: &Vec<String>) -> (r: (Vec<String>, Vec<String>))
    ensures
        strings_view(r.0@) == replacements(prefix@, partial@, strings_view(names@)),
        strings_view(r.1@) == labels(partial@, strings_view(names@)),
{
    let mut comps: Vec<String> = Vec::new();
    let mut shown: Vec<String> = Vec::new();
    let mut i: usize = 0;
    while i < names.len()
        invariant
            i <= names@.len(),
            strings_view(comps@) == replacements(prefix@, partial@, strings_view(names@.take(i as int))),
            strings_view(shown@) == labels(partial@, strings_view(names@.take(i as int))),
        decreases names@.len() - i,
    {
        let ghost taken = strings_view(names@.take(i as int));
        let ghost next = strings_view(names@.take(i + 1));
        assert(next.drop_last() =~= taken);
        assert(next.last() == names@[i as int]@);
        let name = &names[i];
        if !is_hidden(name.as_str()) && begins_with_text(name.as_str(), partial) {
            let mut cmd = String::from_str(cd_str());
            push_char(&mut cmd, ' ');
            cmd.append(prefix);
            cmd.append(name.as_str());
            push_char(&mut cmd, '/');
            assert(cmd@ =~= replacement(prefix@, name@));
            let ghost c0 = strings_view(comps@);
            let ghost s0 = strings_view(shown@);
            comps.push(cmd);
            shown.push(name.clone());
            assert(strings_view(comps@) =~= c0.push(cmd@));
            assert(strings_view(shown@) =~= s0.push(name@));
        }
        i = i + 1;
    }
    assert(names@.take(names@.len() as int) =~= names@);
    (comps, shown)
}

} // verus!
