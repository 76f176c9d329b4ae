//! Strings as sequences of characters, and the scanners the rest of the crate is built on.
//!
//! Every rule of the crate that looks inside a string is stated over `Seq<char>`, the view
//! of `str` and `String`. The executable side works on `Vec<char>`, which `chars_of` and
//! `string_of_range` convert from and to strings.

use vstd::prelude::*;

verus! {

/// `String::push` appends one character.
pub assume_specification[ String::push ](s: &mut String, c: char)
    ensures
        final(s)@ == old(s)@.push(c),
;

/// The characters of `s`, in order.
pub fn chars_of(s: &str) -> (v: Vec<char>)
    ensures
        v@ == s@,
{
    let mut v: Vec<char> = Vec::new();
    for c in it: s.chars()
        invariant
            it.seq() == s@,
            v@ == it.seq().take(it.index()),
    {
        v.push(c);
    }
    v
}

/// The string made of the characters `v[from..to]`.
pub fn string_of_range(v: &Vec<char>, from: usize, to: usize) -> (s: String)
    requires
        from <= to <= v.len(),
    ensures
        s@ == v@.subrange(from as int, to as int),
{
    let mut s = String::new();
    let mut i: usize = from;
    while i < to
        invariant
            from <= i <= to <= v.len(),
            s@ == v@.subrange(from as int, i as int),
        decreases to - i,
    {
        s.push(v[i]);
        i += 1;
        assert(v@.subrange(from as int, i as int) == v@.subrange(from as int, i - 1).push(
            v@[i - 1],
        ));
    }
    s
}

/// Whether `c` is white space: one of the characters that Unicode calls `White_Space`.
pub open spec fn is_space(c: char) -> bool {
    let n = c as u32;
    ||| 0x09 <= n <= 0x0d
    ||| n == 0x20
    ||| n == 0x85
    ||| n == 0xa0
    ||| n == 0x1680
    ||| 0x2000 <= n <= 0x200a
    ||| n == 0x2028
    ||| n == 0x2029
    ||| n == 0x202f
    ||| n == 0x205f
    ||| n == 0x3000
}

/// A set of characters that a scanner can tell from the rest.
#[derive(Clone, Copy, Debug, PartialEq, Eq, Structural)]
pub enum CharClass {
    /// White space.
    Space,
    /// The path separator `/`.
    Slash,
    /// The full stop `.`.
    Dot,
    /// The line feed.
    LineBreak,
    /// `#` and `;`, which open a comment in a unit file.
    Comment,
}

impl CharClass {
    /// Whether `c` belongs to the class.
    pub open spec fn holds(self, c: char) -> bool {
        match self {
            CharClass::Space => is_space(c),
            CharClass::Slash => c == '/',
            CharClass::Dot => c == '.',
            CharClass::LineBreak => c == '\n',
            CharClass::Comment => c == '#' || c == ';',
        }
    }

    /// Tests whether `c` belongs to the class.
    pub fn test(self, c: char) -> (b: bool)
        ensures
            b == self.holds(c),
    {
        match self {
            CharClass::Space => {
                let n: u32 = c as u32;
                (0x09 <= n && n <= 0x0d) || n == 0x20 || n == 0x85 || n == 0xa0 || n == 0x1680 || (
                0x2000 <= n && n <= 0x200a) || n == 0x2028 || n == 0x2029 || n == 0x202f || n
                    == 0x205f || n == 0x3000
            },
            CharClass::Slash => c == '/',
            CharClass::Dot => c == '.',
            CharClass::LineBreak => c == '\n',
            CharClass::Comment => c == '#' || c == ';',
        }
    }
}

/// Where the run that starts at `from` ends: the first index at or after `from` whose
/// character is in `class` when `inside` is false, or out of it when `inside` is true;
/// the length of `s` where there is no such index.
pub open spec fn run_end(s: Seq<char>, from: int, class: CharClass, inside: bool) -> int
    decreases s.len() - from,
{
    if 0 <= from < s.len() && class.holds(s[from]) == inside {
        run_end(s, from + 1, class, inside)
    } else {
        from
    }
}

/// Where the run that ends before `to` starts: scanning backwards from `to`, the index
/// just after the first character that is in `class` when `inside` is false, or out of it
/// when `inside` is true; 0 where there is no such character.
pub open spec fn run_start(s: Seq<char>, to: int, class: CharClass, inside: bool) -> int
    decreases to,
{
    if 0 < to <= s.len() && class.holds(s[to - 1]) == inside {
        run_start(s, to - 1, class, inside)
    } else {
        to
    }
}

/// `run_end` stays in range, everything before it belongs to the run, and the character
/// at it, if any, does not.
pub proof fn lemma_run_end(s: Seq<char>, from: int, class: CharClass, inside: bool)
    requires
        0 <= from <= s.len(),
    ensures
        from <= run_end(s, from, class, inside) <= s.len(),
        forall|i: int|
            from <= i < run_end(s, from, class, inside) ==> class.holds(#[trigger] s[i]) == inside,
        run_end(s, from, class, inside) < s.len() ==> class.holds(
            s[run_end(s, from, class, inside)],
        ) != inside,
    decreases s.len() - from,
{
    if from < s.len() && class.holds(s[from]) == inside {
        lemma_run_end(s, from + 1, class, inside);
    }
}

/// An index of which the three clauses of `lemma_run_end` hold is `run_end`.
pub proof fn lemma_run_end_is(s: Seq<char>, from: int, class: CharClass, inside: bool, end: int)
    requires
        0 <= from <= end <= s.len(),
        forall|i: int| from <= i < end ==> class.holds(#[trigger] s[i]) == inside,
        end < s.len() ==> class.holds(s[end]) != inside,
    ensures
        run_end(s, from, class, inside) == end,
    decreases end - from,
{
    if from < end {
        assert(class.holds(s[from]) == inside);
        lemma_run_end_is(s, from + 1, class, inside, end);
    }
}

/// `run_start` stays in range, everything after it up to `to` belongs to the run, and the
/// character before it, if any, does not.
pub proof fn lemma_run_start(s: Seq<char>, to: int, class: CharClass, inside: bool)
    requires
        0 <= to <= s.len(),
    ensures
        0 <= run_start(s, to, class, inside) <= to,
        forall|i: int|
            run_start(s, to, class, inside) <= i < to ==> class.holds(#[trigger] s[i]) == inside,
        run_start(s, to, class, inside) > 0 ==> class.holds(
            s[run_start(s, to, class, inside) - 1],
        ) != inside,
    decreases to,
{
    if 0 < to && class.holds(s[to - 1]) == inside {
        lemma_run_start(s, to - 1, class, inside);
    }
}

/// An index of which the three clauses of `lemma_run_start` hold is `run_start`.
pub proof fn lemma_run_start_is(
    s: Seq<char>,
    to: int,
    class: CharClass,
    inside: bool,
    start: int,
)
    requires
        0 <= start <= to <= s.len(),
        forall|i: int| start <= i < to ==> class.holds(#[trigger] s[i]) == inside,
        start > 0 ==> class.holds(s[start - 1]) != inside,
    ensures
        run_start(s, to, class, inside) == start,
    decreases to - start,
{
    if start < to {
        assert(class.holds(s[to - 1]) == inside);
        lemma_run_start_is(s, to - 1, class, inside, start);
    }
}

/// Scans forwards from `from` to the end of the run.
pub fn scan_forward(v: &Vec<char>, from: usize, class: CharClass, inside: bool) -> (end: usize)
    requires
        from <= v.len(),
    ensures
        end == run_end(v@, from as int, class, inside),
        from <= end <= v.len(),
{
    let mut i: usize = from;
    while i < v.len() && class.test(v[i]) == inside
        invariant
            from <= i <= v.len(),
            forall|k: int| from <= k < i ==> class.holds(#[trigger] v@[k]) == inside,
        decreases v.len() - i,
    {
        i += 1;
    }
    proof {
        lemma_run_end_is(v@, from as int, class, inside, i as int);
    }
    i
}

/// `s` without its leading and trailing white space.
pub open spec fn trimmed(s: Seq<char>) -> Seq<char> {
    let from = run_end(s, 0, CharClass::Space, true);
    let to = run_start(s, s.len() as int, CharClass::Space, true);
    if from <= to {
        s.subrange(from, to)
    } else {
        Seq::empty()
    }
}

/// The bounds of `v[from..to]` without its leading and trailing white space.
pub fn trim_range(v: &Vec<char>, from: usize, to: usize) -> (r: (usize, usize))
    requires
        from <= to <= v.len(),
    ensures
        from <= r.0 <= r.1 <= to,
        v@.subrange(r.0 as int, r.1 as int) == trimmed(v@.subrange(from as int, to as int)),
{
    let ghost part = v@.subrange(from as int, to as int);
    let mut a: usize = from;
    while a < to && CharClass::Space.test(v[a])
        invariant
            from <= a <= to <= v.len(),
            forall|k: int| from <= k < a ==> is_space(#[trigger] v@[k]),
        decreases to - a,
    {
        a += 1;
    }
    let mut b: usize = to;
    while b > a && CharClass::Space.test(v[b - 1])
        invariant
            a <= b <= to <= v.len(),
            forall|k: int| b <= k < to ==> is_space(#[trigger] v@[k]),
        decreases b,
    {
        b -= 1;
    }
    proof {
        assert forall|i: int| 0 <= i < a - from implies CharClass::Space.holds(
            #[trigger] part[i],
        ) == true by {
            assert(part[i] == v@[from + i]);
        }
        lemma_run_end_is(part, 0, CharClass::Space, true, a - from);
        if a < to {
            assert(part[a - from] == v@[a as int]);
            assert forall|i: int| b - from <= i < to - from implies CharClass::Space.holds(
                #[trigger] part[i],
            ) == true by {
                assert(part[i] == v@[from + i]);
            }
            if b > a {
                assert(part[b - from - 1] == v@[b - 1]);
            }
            lemma_run_start_is(part, to - from, CharClass::Space, true, b - from);
            assert(part.subrange(a - from, b - from) == v@.subrange(a as int, b as int));
        } else {
            lemma_run_start(part, to - from, CharClass::Space, true);
            let back = run_start(part, to - from, CharClass::Space, true);
            assert(back == 0) by {
                if back > 0 {
                    assert(is_space(part[back - 1]));
                }
            }
            assert(v@.subrange(a as int, b as int) =~= Seq::<char>::empty());
            if to == from {
                assert(part.subrange(0, 0) =~= Seq::<char>::empty());
            }
        }
    }
    (a, b)
}

/// Whether `v[from..to]` begins with the characters of `prefix`.
pub fn range_starts_with(v: &Vec<char>, from: usize, to: usize, prefix: &Vec<char>) -> (b: bool)
    requires
        from <= to <= v.len(),
    ensures
        b == prefix@.is_prefix_of(v@.subrange(from as int, to as int)),
{
    if prefix.len() > to - from {
        return false;
    }
    let ghost part = v@.subrange(from as int, to as int);
    let mut i: usize = 0;
    while i < prefix.len()
        invariant
            from <= to <= v.len(),
            i <= prefix.len() <= to - from,
            part == v@.subrange(from as int, to as int),
            forall|k: int| 0 <= k < i ==> prefix@[k] == part[k],
        decreases prefix.len() - i,
    {
        if prefix[i] != v[from + i] {
            proof {
                assert(part[i as int] == v@[from + i]);
                assert(part.subrange(0, prefix@.len() as int)[i as int] != prefix@[i as int]);
            }
            return false;
        }
        proof {
            assert(part[i as int] == v@[from + i]);
        }
        i += 1;
    }
    assert(prefix@ =~= part.subrange(0, prefix@.len() as int));
    true
}

/// Whether `v` ends with the characters of `suffix`.
pub fn ends_with(v: &Vec<char>, suffix: &Vec<char>) -> (b: bool)
    ensures
        b == suffix@.is_suffix_of(v@),
{
    if suffix.len() > v.len() {
        return false;
    }
    let base: usize = v.len() - suffix.len();
    let ghost tail = v@.subrange(base as int, v.len() as int);
    let mut i: usize = 0;
    while i < suffix.len()
        invariant
            base + suffix.len() == v.len(),
            i <= suffix.len(),
            tail == v@.subrange(base as int, v.len() as int),
            forall|k: int| 0 <= k < i ==> suffix@[k] == tail[k],
        decreases suffix.len() - i,
    {
        if suffix[i] != v[base + i] {
            proof {
                assert(tail[i as int] == v@[base + i]);
            }
            return false;
        }
        proof {
            assert(tail[i as int] == v@[base + i]);
        }
        i += 1;
    }
    assert(suffix@ =~= tail);
    true
}


/// Whether no character of `s` is in `class`.
pub open spec fn has_no(s: Seq<char>, class: CharClass) -> bool {
    forall|i: int| 0 <= i < s.len() ==> !class.holds(#[trigger] s[i])
}

/// Whether every character of `s` is in `class`.
pub open spec fn has_only(s: Seq<char>, class: CharClass) -> bool {
    forall|i: int| 0 <= i < s.len() ==> class.holds(#[trigger] s[i])
}

/// In a sequence without characters of `class`, a run of the others is the whole sequence,
/// and a run of the class is empty.
pub proof fn lemma_runs_without(s: Seq<char>, class: CharClass)
    requires
        has_no(s, class),
    ensures
        run_end(s, 0, class, false) == s.len(),
        run_start(s, s.len() as int, class, false) == 0,
        run_end(s, 0, class, true) == 0,
        run_start(s, s.len() as int, class, true) == s.len(),
{
    lemma_run_end_is(s, 0, class, false, s.len() as int);
    lemma_run_start_is(s, s.len() as int, class, false, 0);
    lemma_run_end_is(s, 0, class, true, 0);
    lemma_run_start_is(s, s.len() as int, class, true, s.len() as int);
}


/// The lines of `text`: what its line feeds part, in order. A text without line feed is
/// one line, and a text that ends with a line feed has an empty last line.
pub open spec fn lines_of(text: Seq<char>) -> Seq<Seq<char>>
    decreases text.len(),
{
    let end = run_end(text, 0, CharClass::LineBreak, false);
    if 0 <= end < text.len() {
        seq![text.take(end)] + lines_of(text.skip(end + 1))
    } else {
        seq![text]
    }
}

/// A run in what is left of `s` after `k` characters is the run in `s` from `k` on.
pub proof fn lemma_run_end_skip(s: Seq<char>, k: int, from: int, class: CharClass, inside: bool)
    requires
        0 <= k,
        0 <= from,
        k + from <= s.len(),
    ensures
        run_end(s.skip(k), from, class, inside) + k == run_end(s, k + from, class, inside),
    decreases s.len() - k - from,
{
    let rest = s.skip(k);
    if from < rest.len() {
        assert(rest[from] == s[k + from]);
        if class.holds(rest[from]) == inside {
            lemma_run_end_skip(s, k, from + 1, class, inside);
        }
    }
}

/// A text without line feed is its only line.
pub proof fn lemma_lines_of_line(line: Seq<char>)
    requires
        has_no(line, CharClass::LineBreak),
    ensures
        lines_of(line) == seq![line],
{
    lemma_runs_without(line, CharClass::LineBreak);
}

/// A line, a line feed and a text: the lines are the line and the lines of the text.
pub proof fn lemma_lines_of_more(line: Seq<char>, rest: Seq<char>)
    requires
        has_no(line, CharClass::LineBreak),
    ensures
        lines_of(line + seq!['\n'] + rest) == seq![line] + lines_of(rest),
{
    let text = line + seq!['\n'] + rest;
    assert forall|i: int| 0 <= i < line.len() implies CharClass::LineBreak.holds(
        #[trigger] text[i],
    ) == false by {
        assert(text[i] == line[i]);
    }
    assert(text[line.len() as int] == '\n');
    lemma_run_end_is(text, 0, CharClass::LineBreak, false, line.len() as int);
    assert(text.take(line.len() as int) =~= line);
    assert(text.skip(line.len() as int + 1) =~= rest);
}

} // verus!
