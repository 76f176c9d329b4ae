//! Reading a trigger unit for the execution unit that it names.
//!
//! A trigger unit may say `Unit=` and the name of the unit to activate. The first line that
//! says so with a name decides. White space round a line and round the name does not count,
//! and a `#` or `;` ends the name.

use crate::naming::option_view;
use crate::text::{
    chars_of, lemma_run_end_is, lemma_run_end_skip, lines_of, range_starts_with, run_end,
    scan_forward, string_of_range, trim_range, trimmed, CharClass,
};
use vstd::prelude::*;

verus! {

/// The key that names the unit to activate, with its `=`.
pub open spec fn unit_key() -> Seq<char> {
    "Unit="@
}

/// The unit that one line names: what follows the key up to a comment sign, without the
/// white space round it. `None` where the line does not begin with the key or names nothing.
pub open spec fn unit_of_line(line: Seq<char>) -> Option<Seq<char>> {
    let l = trimmed(line);
    if unit_key().is_prefix_of(l) {
        let rest = l.skip(unit_key().len() as int);
        let value = trimmed(rest.take(run_end(rest, 0, CharClass::Comment, false)));
        if value.len() == 0 {
            None
        } else {
            Some(value)
        }
    } else {
        None
    }
}

/// The unit named by the first of `lines` that names one.
pub open spec fn first_unit(lines: Seq<Seq<char>>) -> Option<Seq<char>>
    decreases lines.len(),
{
    if lines.len() == 0 {
        None
    } else {
        match unit_of_line(lines[0]) {
            Some(unit) => Some(unit),
            None => first_unit(lines.skip(1)),
        }
    }
}

/// The execution unit that the trigger unit `text` names, if it names one.
pub open spec fn referenced_unit(text: Seq<char>) -> Option<Seq<char>> {
    first_unit(lines_of(text))
}

/// The unit that the line `v[from..to]` names.
fn line_unit(v: &Vec<char>, from: usize, to: usize, key: &Vec<char>) -> (unit: Option<String>)
    requires
        from <= to <= v.len(),
        key@ == unit_key(),
    ensures
        option_view(unit) == unit_of_line(v@.subrange(from as int, to as int)),
{
    let (a, b) = trim_range(v, from, to);
    let ghost l = v@.subrange(a as int, b as int);
    if !range_starts_with(v, a, b, key) {
        return None;
    }
    let start: usize = a + key.len();
    let ghost rest = l.skip(key@.len() as int);
    assert(rest == v@.subrange(start as int, b as int));
    let mut stop: usize = start;
    while stop < b && !CharClass::Comment.test(v[stop])
        invariant
            start <= stop <= b <= v.len(),
            forall|k: int| start <= k < stop ==> !CharClass::Comment.holds(#[trigger] v@[k]),
        decreases b - stop,
    {
        stop += 1;
    }
    proof {
        assert forall|i: int| 0 <= i < stop - start implies CharClass::Comment.holds(
            #[trigger] rest[i],
        ) == false by {
            assert(rest[i] == v@[start + i]);
        }
        if stop < b {
            assert(rest[stop - start] == v@[stop as int]);
        }
        lemma_run_end_is(rest, 0, CharClass::Comment, false, stop - start);
        assert(rest.take(stop - start) == v@.subrange(start as int, stop as int));
    }
    let (c, d) = trim_range(v, start, stop);
    if c == d {
        None
    } else {
        Some(string_of_range(v, c, d))
    }
}

/// The execution unit that the trigger unit `text` names, if it names one.
pub fn find_referenced_unit(text: &str) -> (unit: Option<String>)
    ensures
        option_view(unit) == referenced_unit(text@),
{
    let v = chars_of(text);
    let key = chars_of("Unit=");
    let mut from: usize = 0;
    assert(v@.skip(0) == v@);
    loop
        invariant
            from <= v.len(),
            v@ == text@,
            key@ == unit_key(),
            referenced_unit(v@) == first_unit(lines_of(v@.skip(from as int))),
        decreases v.len() - from,
    {
        let ghost rest = v@.skip(from as int);
        let end = scan_forward(&v, from, CharClass::LineBreak, false);
        proof {
            lemma_run_end_skip(v@, from as int, 0, CharClass::LineBreak, false);
            if end < v.len() {
                assert(rest.take(end - from) == v@.subrange(from as int, end as int));
                assert(rest.skip(end - from + 1) == v@.skip(end + 1));
                assert((seq![rest.take(end - from)] + lines_of(rest.skip(end - from + 1)))[0]
                    == rest.take(end - from));
                assert((seq![rest.take(end - from)] + lines_of(rest.skip(end - from + 1))).skip(1)
                    == lines_of(rest.skip(end - from + 1)));
            } else {
                assert(rest == v@.subrange(from as int, end as int));
                assert(seq![rest].skip(1).len() == 0);
                assert(first_unit(seq![rest].skip(1)) is None);
            }
        }
        let found = line_unit(&v, from, end, &key);
        if found.is_some() {
            return found;
        }
        if end >= v.len() {
            return None;
        }
        from = end + 1;
    }
}

} // verus!
