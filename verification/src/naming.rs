//! How a task gets its name and its description.
//!
//! A task that is given no name takes one from its command line: the first word, without
//! directories, without its last extension, and with `_` in place of each `.` that is left.
//! The canonical name of a task is its name with the timer suffix, added once and never twice.

use crate::text::{
    chars_of, ends_with, lemma_run_start_is, run_end, run_start, scan_forward, string_of_range,
    CharClass,
};
use vstd::prelude::*;
use vstd::string::*;

verus! {

/// The suffix of a trigger unit's name.
pub open spec fn timer_suffix() -> Seq<char> {
    ".timer"@
}

/// The suffix of an execution unit's name.
pub open spec fn service_suffix() -> Seq<char> {
    ".service"@
}

/// The first word of `s`: what stands between its leading white space and the next white
/// space. A string with no word in it is its own first word.
pub open spec fn first_word(s: Seq<char>) -> Seq<char> {
    let start = run_end(s, 0, CharClass::Space, true);
    if start >= s.len() {
        s
    } else {
        s.subrange(start, run_end(s, start, CharClass::Space, false))
    }
}

/// The last piece of the path `t` that is neither empty nor `.`, pieces being what the
/// separators leave; empty where `t` has no such piece.
pub open spec fn file_component(t: Seq<char>) -> Seq<char>
    decreases t.len(),
{
    let cut = run_start(t, t.len() as int, CharClass::Slash, false);
    let piece = t.skip(cut);
    if piece.len() != 0 && piece != seq!['.'] {
        piece
    } else if 0 < cut <= t.len() {
        file_component(t.take(cut - 1))
    } else {
        Seq::empty()
    }
}

/// The file name of the path `t`: its last piece, unless there is none or it is `..`.
pub open spec fn file_name(t: Seq<char>) -> Option<Seq<char>> {
    let piece = file_component(t);
    if piece.len() == 0 || piece == seq!['.', '.'] {
        None
    } else {
        Some(piece)
    }
}

/// The file name `f` without its last extension. A name whose only `.` is its first
/// character has no extension.
pub open spec fn file_stem(f: Seq<char>) -> Seq<char> {
    let after_dot = run_start(f, f.len() as int, CharClass::Dot, false);
    if after_dot > 1 {
        f.take(after_dot - 1)
    } else {
        f
    }
}

/// `s` with `_` in place of each `.`.
pub open spec fn without_dots(s: Seq<char>) -> Seq<char> {
    Seq::new(
        s.len(),
        |i: int|
            if s[i] == '.' {
                '_'
            } else {
                s[i]
            },
    )
}

/// The name that a task takes from its command line `exec`. Where the first word has no
/// file name, the whole word stands in for it.
pub open spec fn derived_name(exec: Seq<char>) -> Seq<char> {
    let word = first_word(exec);
    match file_name(word) {
        Some(f) => without_dots(file_stem(f)),
        None => without_dots(word),
    }
}

/// The canonical form of the name `n`: `n` itself if it ends with the timer suffix, else
/// `n` followed by the suffix.
pub open spec fn canonical_name(n: Seq<char>) -> Seq<char> {
    if timer_suffix().is_suffix_of(n) {
        n
    } else {
        n + timer_suffix()
    }
}

/// The identifier that the two units of the task named `n` share: `n` without one timer
/// suffix, if it ends with one.
pub open spec fn base_name(n: Seq<char>) -> Seq<char> {
    if timer_suffix().is_suffix_of(n) {
        n.take(n.len() - timer_suffix().len())
    } else {
        n
    }
}

/// The name of a task: the canonical form of the name given, or the name derived from `exec`.
pub open spec fn resolved_name(exec: Seq<char>, name: Option<Seq<char>>) -> Seq<char> {
    match name {
        Some(n) => canonical_name(n),
        None => derived_name(exec),
    }
}

/// The description of a task: the one given, or `Execute` and the command line.
pub open spec fn resolved_description(exec: Seq<char>, description: Option<Seq<char>>) -> Seq<
    char,
> {
    match description {
        Some(d) => d,
        None => "Execute "@ + exec,
    }
}

/// The view of an optional string.
pub open spec fn option_view(s: Option<String>) -> Option<Seq<char>> {
    match s {
        Some(t) => Some(t@),
        None => None,
    }
}

/// The bounds of the first word of `v`.
fn first_word_range(v: &Vec<char>) -> (r: (usize, usize))
    ensures
        r.0 <= r.1 <= v.len(),
        v@.subrange(r.0 as int, r.1 as int) == first_word(v@),
{
    let start = scan_forward(v, 0, CharClass::Space, true);
    if start >= v.len() {
        assert(v@.subrange(0, v.len() as int) == v@);
        (0, v.len())
    } else {
        let end = scan_forward(v, start, CharClass::Space, false);
        (start, end)
    }
}

/// The first word of `s`.
pub fn first_word_of(s: &str) -> (word: String)
    ensures
        word@ == first_word(s@),
{
    let v = chars_of(s);
    let (from, to) = first_word_range(&v);
    string_of_range(&v, from, to)
}

/// The bounds of the file name of the path `v[from..to]`, if it has one.
fn file_name_range(v: &Vec<char>, from: usize, to: usize) -> (r: Option<(usize, usize)>)
    requires
        from <= to <= v.len(),
    ensures
        match r {
            Some((a, b)) => from <= a <= b <= to && file_name(
                v@.subrange(from as int, to as int),
            ) == Some(v@.subrange(a as int, b as int)),
            None => file_name(v@.subrange(from as int, to as int)) is None,
        },
{
    let ghost path = v@.subrange(from as int, to as int);
    let mut end: usize = to;
    loop
        invariant
            from <= end <= to <= v.len(),
            path == v@.subrange(from as int, to as int),
            file_component(path) == file_component(v@.subrange(from as int, end as int)),
        decreases end,
    {
        let ghost rest = v@.subrange(from as int, end as int);
        let mut cut: usize = end;
        while cut > from && v[cut - 1] != '/'
            invariant
                from <= cut <= end <= v.len(),
                forall|k: int| cut <= k < end ==> v@[k] != '/',
            decreases cut,
        {
            cut -= 1;
        }
        proof {
            assert forall|i: int| cut - from <= i < end - from implies CharClass::Slash.holds(
                #[trigger] rest[i],
            ) == false by {
                assert(rest[i] == v@[from + i]);
            }
            if cut > from {
                assert(rest[cut - from - 1] == v@[cut - 1]);
            }
            lemma_run_start_is(rest, end - from, CharClass::Slash, false, cut - from);
            assert(rest.skip(cut - from) == v@.subrange(cut as int, end as int));
            if cut > from {
                assert(rest.take(cut - from - 1) == v@.subrange(from as int, cut - 1));
            }
        }
        let ghost piece = v@.subrange(cut as int, end as int);
        let single_dot = end - cut == 1 && v[cut] == '.';
        proof {
            if single_dot {
                assert(piece =~= seq!['.']);
            } else if piece.len() == 1 {
                assert(piece[0] != '.');
            }
        }
        if end > cut && !single_dot {
            let parent = end - cut == 2 && v[cut] == '.' && v[cut + 1] == '.';
            proof {
                if parent {
                    assert(piece =~= seq!['.', '.']);
                } else if piece.len() == 2 {
                    assert(piece[0] != '.' || piece[1] != '.');
                }
            }
            if parent {
                return None;
            }
            return Some((cut, end));
        }
        if cut == from {
            return None;
        }
        end = cut - 1;
    }
}

/// The end of the stem of the file name `v[from..to]`.
fn file_stem_end(v: &Vec<char>, from: usize, to: usize) -> (end: usize)
    requires
        from <= to <= v.len(),
    ensures
        from <= end <= to,
        v@.subrange(from as int, end as int) == file_stem(v@.subrange(from as int, to as int)),
{
    let ghost name = v@.subrange(from as int, to as int);
    let mut after: usize = to;
    while after > from && v[after - 1] != '.'
        invariant
            from <= after <= to <= v.len(),
            forall|k: int| after <= k < to ==> v@[k] != '.',
        decreases after,
    {
        after -= 1;
    }
    proof {
        assert forall|i: int| after - from <= i < to - from implies CharClass::Dot.holds(
            #[trigger] name[i],
        ) == false by {
            assert(name[i] == v@[from + i]);
        }
        if after > from {
            assert(name[after - from - 1] == v@[after - 1]);
        }
        lemma_run_start_is(name, to - from, CharClass::Dot, false, after - from);
    }
    if after - from > 1 {
        assert(name.take(after - from - 1) == v@.subrange(from as int, after - 1));
        after - 1
    } else {
        to
    }
}

/// The string `v[from..to]` with `_` in place of each `.`.
fn string_without_dots(v: &Vec<char>, from: usize, to: usize) -> (s: String)
    requires
        from <= to <= v.len(),
    ensures
        s@ == without_dots(v@.subrange(from as int, to as int)),
{
    let ghost part = v@.subrange(from as int, to as int);
    let mut s = String::new();
    let mut i: usize = from;
    while i < to
        invariant
            from <= i <= to <= v.len(),
            part == v@.subrange(from as int, to as int),
            s@ == without_dots(part).take(i - from),
        decreases to - i,
    {
        let c = v[i];
        if c == '.' {
            s.push('_');
        } else {
            s.push(c);
        }
        i += 1;
        assert(without_dots(part).take(i - from) == without_dots(part).take(i - from - 1).push(
            without_dots(part)[i - from - 1],
        ));
    }
    assert(without_dots(part).take(to - from) == without_dots(part));
    s
}

/// The name that a task takes from its command line.
pub fn derive_name(exec: &str) -> (name: String)
    ensures
        name@ == derived_name(exec@),
{
    let v = chars_of(exec);
    let (from, to) = first_word_range(&v);
    match file_name_range(&v, from, to) {
        Some((a, b)) => {
            let end = file_stem_end(&v, a, b);
            string_without_dots(&v, a, end)
        },
        None => string_without_dots(&v, from, to),
    }
}

/// The name of a task: the canonical form of `name` where one is given, else the name
/// derived from the command line `exec`.
pub fn get_timer_name(exec: &str, name: &Option<String>) -> (resolved: String)
    ensures
        resolved@ == resolved_name(exec@, option_view(*name)),
{
    match name {
        Some(n) => add_dot_timer_extension(n.as_str()),
        None => derive_name(exec),
    }
}

/// The canonical form of `name`: it ends with the timer suffix, which is added only where
/// it is missing.
pub fn add_dot_timer_extension(name: &str) -> (canonical: String)
    ensures
        canonical@ == canonical_name(name@),
{
    let v = chars_of(name);
    let suffix = chars_of(".timer");
    if ends_with(&v, &suffix) {
        name.to_owned()
    } else {
        let mut s = name.to_owned();
        s.append(".timer");
        s
    }
}

/// The identifier that the two units of the task `name` share.
pub fn unit_base(name: &str) -> (base: String)
    ensures
        base@ == base_name(name@),
{
    let v = chars_of(name);
    let suffix = chars_of(".timer");
    if ends_with(&v, &suffix) {
        let s = string_of_range(&v, 0, v.len() - suffix.len());
        assert(v@.subrange(0, v.len() - suffix.len()) == v@.take(v.len() - suffix.len()));
        s
    } else {
        name.to_owned()
    }
}

/// The description of a task: `description` where one is given, else `Execute` and the
/// command line.
pub fn get_timer_description(exec: &str, description: &Option<String>) -> (resolved: String)
    ensures
        resolved@ == resolved_description(exec@, option_view(*description)),
{
    match description {
        Some(d) => d.clone(),
        None => {
            let mut s = "Execute ".to_owned();
            s.append(exec);
            s
        },
    }
}

} // verus!
