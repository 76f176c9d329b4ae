//! Names: canonical names, and names derived from a command line.

use crate::naming::{
    base_name, canonical_name, derived_name, file_component, file_name, file_stem, first_word,
    resolved_name, timer_suffix, without_dots,
};
use crate::text::{
    has_no, has_only, lemma_run_end, lemma_run_start, lemma_runs_without, run_end, run_start,
    CharClass,
};
use vstd::prelude::*;

verus! {

/// A sequence followed by a suffix ends with that suffix, and is itself what stands before
/// it.
proof fn lemma_appended_suffix(n: Seq<char>, suffix: Seq<char>)
    ensures
        suffix.is_suffix_of(n + suffix),
        (n + suffix).take(n.len() as int) == n,
{
    let whole = n + suffix;
    assert(whole.subrange(whole.len() - suffix.len(), whole.len() as int) =~= suffix);
    assert(whole.take(n.len() as int) =~= n);
}

/// Canonical names. Making a name canonical twice gives what making it canonical once
/// gives. A canonical name ends with the timer suffix. A name that ends with the suffix is
/// canonical as it stands: the suffix is never doubled. So a canonical name ends with the
/// suffix twice only where the name itself did.
pub proof fn lemma_canonical_name(n: Seq<char>)
    ensures
        canonical_name(canonical_name(n)) == canonical_name(n),
        timer_suffix().is_suffix_of(canonical_name(n)),
        timer_suffix().is_suffix_of(n) ==> canonical_name(n) == n,
        (timer_suffix() + timer_suffix()).is_suffix_of(canonical_name(n)) ==> (timer_suffix()
            + timer_suffix()).is_suffix_of(n),
{
    let suffix = timer_suffix();
    let twice = suffix + suffix;
    lemma_appended_suffix(n, suffix);
    if !suffix.is_suffix_of(n) && twice.is_suffix_of(n + suffix) {
        let whole = n + suffix;
        let tail = whole.subrange(whole.len() - twice.len(), whole.len() as int);
        assert(tail == twice);
        assert(suffix.len() <= n.len());
        assert(n.subrange(n.len() - suffix.len(), n.len() as int) =~= suffix) by {
            assert forall|i: int| 0 <= i < suffix.len() implies n[n.len() - suffix.len() + i]
                == suffix[i] by {
                assert(tail[i] == twice[i]);
                assert(tail[i] == whole[whole.len() - twice.len() + i]);
            }
        }
    }
}

/// The canonical name of a task is the base name that its two units share, followed by
/// the timer suffix; and the base name of the canonical name is the base name of the name.
pub proof fn lemma_canonical_name_over_base(n: Seq<char>)
    ensures
        canonical_name(n) == base_name(n) + timer_suffix(),
        base_name(canonical_name(n)) == base_name(n),
{
    let suffix = timer_suffix();
    lemma_appended_suffix(n, suffix);
    if suffix.is_suffix_of(n) {
        let cut = n.len() - suffix.len();
        assert(n =~= n.take(cut) + n.subrange(cut, n.len() as int));
    }
}

/// The first word of a string holds no white space, unless the string holds nothing else.
pub proof fn lemma_first_word_has_no_space(s: Seq<char>)
    requires
        !has_only(s, CharClass::Space),
    ensures
        has_no(first_word(s), CharClass::Space),
        first_word(s).len() > 0,
{
    let start = run_end(s, 0, CharClass::Space, true);
    lemma_run_end(s, 0, CharClass::Space, true);
    if start >= s.len() {
        assert(has_only(s, CharClass::Space));
    }
    lemma_run_end(s, start, CharClass::Space, false);
}

/// A string without white space is its own first word.
pub proof fn lemma_first_word_of_word(s: Seq<char>)
    requires
        has_no(s, CharClass::Space),
    ensures
        first_word(s) == s,
{
    lemma_runs_without(s, CharClass::Space);
    if s.len() > 0 {
        assert(s.subrange(0, s.len() as int) =~= s);
    }
}

/// The last piece of a path holds no separator; and it is empty only where every piece of
/// the path is empty or `.`, so that the path holds nothing but separators and dots.
pub proof fn lemma_file_component(t: Seq<char>)
    ensures
        has_no(file_component(t), CharClass::Slash),
        file_component(t) != seq!['.'],
        file_component(t).len() == 0 ==> forall|i: int|
            0 <= i < t.len() ==> #[trigger] t[i] == '/' || t[i] == '.',
    decreases t.len(),
{
    let cut = run_start(t, t.len() as int, CharClass::Slash, false);
    lemma_run_start(t, t.len() as int, CharClass::Slash, false);
    let piece = t.skip(cut);
    if piece.len() != 0 && piece != seq!['.'] {
        assert forall|i: int| 0 <= i < piece.len() implies !CharClass::Slash.holds(
            #[trigger] piece[i],
        ) by {
            assert(piece[i] == t[cut + i]);
        }
    } else {
        assert forall|i: int| cut <= i < t.len() implies #[trigger] t[i] == '.' by {
            assert(t[i] == piece[i - cut]);
            assert(piece =~= seq!['.']);
        }
        if 0 < cut {
            let rest = t.take(cut - 1);
            lemma_file_component(rest);
            if file_component(t).len() == 0 {
                assert forall|i: int| 0 <= i < t.len() implies #[trigger] t[i] == '/' || t[i]
                    == '.' by {
                    if i < cut - 1 {
                        assert(t[i] == rest[i]);
                    }
                }
            }
        }
    }
}

/// A path without separators is its own last piece, unless it is `.`.
pub proof fn lemma_file_component_of_piece(t: Seq<char>)
    requires
        has_no(t, CharClass::Slash),
        t != seq!['.'],
    ensures
        file_component(t) == t,
{
    lemma_runs_without(t, CharClass::Slash);
    assert(t.skip(0) =~= t);
    if t.len() == 0 {
        assert(file_component(t) =~= t);
    }
}

/// What taking the last extension off a file name leaves: a part of the name that is not
/// empty, unless the name is; after it, where something was taken, one `.` and an extension
/// without `.`.
pub proof fn lemma_file_stem(f: Seq<char>)
    ensures
        file_stem(f).is_prefix_of(f),
        f.len() > 0 ==> file_stem(f).len() > 0,
        file_stem(f).len() < f.len() ==> f[file_stem(f).len() as int] == '.' && has_no(
            f.skip(file_stem(f).len() as int + 1),
            CharClass::Dot,
        ),
        file_stem(f).len() == f.len() > 0 ==> has_no(f.skip(1), CharClass::Dot),
{
    let after = run_start(f, f.len() as int, CharClass::Dot, false);
    lemma_run_start(f, f.len() as int, CharClass::Dot, false);
    if after > 1 {
        let stem = f.take(after - 1);
        assert(stem =~= f.subrange(0, stem.len() as int));
        let extension = f.skip(after);
        assert forall|i: int| 0 <= i < extension.len() implies !CharClass::Dot.holds(
            #[trigger] extension[i],
        ) by {
            assert(extension[i] == f[after + i]);
        }
    } else {
        assert(f =~= f.subrange(0, f.len() as int));
        if f.len() > 0 {
            let rest = f.skip(1);
            assert forall|i: int| 0 <= i < rest.len() implies !CharClass::Dot.holds(
                #[trigger] rest[i],
            ) by {
                assert(rest[i] == f[1 + i]);
            }
        }
    }
}

/// A file name without `.` has no extension to take off.
pub proof fn lemma_file_stem_of_stem(f: Seq<char>)
    requires
        has_no(f, CharClass::Dot),
    ensures
        file_stem(f) == f,
{
    lemma_runs_without(f, CharClass::Dot);
}

/// Replacing the dots leaves none, changes nothing else, and has nothing to do where there
/// is no dot.
pub proof fn lemma_without_dots(s: Seq<char>)
    ensures
        has_no(without_dots(s), CharClass::Dot),
        without_dots(s).len() == s.len(),
        has_no(s, CharClass::Slash) ==> has_no(without_dots(s), CharClass::Slash),
        has_no(s, CharClass::Space) ==> has_no(without_dots(s), CharClass::Space),
        has_no(s, CharClass::Dot) ==> without_dots(s) == s,
{
    if has_no(s, CharClass::Dot) {
        assert(without_dots(s) =~= s);
    }
    if has_no(s, CharClass::Space) {
        assert forall|i: int| 0 <= i < s.len() implies !CharClass::Space.holds(
            #[trigger] without_dots(s)[i],
        ) by {
            assert(!CharClass::Space.holds(s[i]));
        }
    }
    if has_no(s, CharClass::Slash) {
        assert forall|i: int| 0 <= i < s.len() implies !CharClass::Slash.holds(
            #[trigger] without_dots(s)[i],
        ) by {
            assert(!CharClass::Slash.holds(s[i]));
        }
    }
}

/// A name derived from a command line holds no `.`; and where the first word of the
/// command line has a file name, the derived name holds no separator either, and is not
/// empty: the directories are gone, and so is one extension.
pub proof fn lemma_derived_name_is_plain(exec: Seq<char>)
    ensures
        has_no(derived_name(exec), CharClass::Dot),
        file_name(first_word(exec)) is Some ==> has_no(derived_name(exec), CharClass::Slash)
            && derived_name(exec).len() > 0 && derived_name(exec) == without_dots(
            file_stem(file_name(first_word(exec))->0),
        ),
{
    let word = first_word(exec);
    match file_name(word) {
        Some(f) => {
            lemma_file_component(word);
            lemma_file_stem(f);
            let stem = file_stem(f);
            assert forall|i: int| 0 <= i < stem.len() implies !CharClass::Slash.holds(
                #[trigger] stem[i],
            ) by {
                assert(stem[i] == f.subrange(0, stem.len() as int)[i]);
            }
            lemma_without_dots(stem);
        },
        None => {
            lemma_without_dots(word);
        },
    }
}

/// Whether the derived name of the word `w` still holds a directory: `w` has no file name,
/// yet it holds a separator, and something that is none. Such are `a/..` and `./`.
pub open spec fn keeps_directory(w: Seq<char>) -> bool {
    file_name(w) is None && !has_no(w, CharClass::Slash) && !has_only(w, CharClass::Slash)
}

/// Deriving a name from a derived name changes nothing, for every command line but those
/// whose first word keeps its directory: a task that takes its name from a name that was
/// taken from a command line takes that name.
pub proof fn lemma_derived_name_is_stable(exec: Seq<char>)
    requires
        !keeps_directory(first_word(exec)),
    ensures
        derived_name(derived_name(exec)) == derived_name(exec),
        resolved_name(resolved_name(exec, None), None) == resolved_name(exec, None),
{
    let word = first_word(exec);
    let name = derived_name(exec);
    lemma_derived_name_is_plain(exec);
    lemma_without_dots(word);
    if has_only(exec, CharClass::Space) {
        // The command line is its own first word, and holds neither separator nor dot.
        assert(word == exec) by {
            lemma_run_end(exec, 0, CharClass::Space, true);
            if run_end(exec, 0, CharClass::Space, true) < exec.len() {
                assert(CharClass::Space.holds(exec[run_end(exec, 0, CharClass::Space, true)]));
            }
        }
        assert(has_no(exec, CharClass::Slash) && has_no(exec, CharClass::Dot)) by {
            assert forall|i: int| 0 <= i < exec.len() implies !CharClass::Slash.holds(
                #[trigger] exec[i],
            ) && !CharClass::Dot.holds(exec[i]) by {
                assert(CharClass::Space.holds(exec[i]));
            }
        }
        assert(exec != seq!['.']) by {
            if exec == seq!['.'] {
                assert(exec[0] == '.');
                assert(CharClass::Space.holds(exec[0]));
            }
        }
        assert(exec != seq!['.', '.']) by {
            if exec == seq!['.', '.'] {
                assert(exec[0] == '.');
                assert(CharClass::Space.holds(exec[0]));
            }
        }
        lemma_file_component_of_piece(exec);
        lemma_file_stem_of_stem(exec);
        assert(name == exec);
    } else {
        lemma_first_word_has_no_space(exec);
        match file_name(word) {
            Some(f) => {
                lemma_file_component(word);
                lemma_file_stem(f);
                let stem = file_stem(f);
                assert(has_no(stem, CharClass::Space)) by {
                    lemma_word_pieces_have_no_space(word);
                    assert forall|i: int| 0 <= i < stem.len() implies !CharClass::Space.holds(
                        #[trigger] stem[i],
                    ) by {
                        assert(stem[i] == f.subrange(0, stem.len() as int)[i]);
                        assert(!CharClass::Space.holds(f[i]));
                    }
                }
                lemma_without_dots(stem);
                lemma_plain_name_is_its_own(name);
            },
            None => {
                assert(name == without_dots(word));
                if has_no(word, CharClass::Slash) {
                    lemma_plain_name_is_its_own(name);
                } else {
                    // Nothing but separators: there is no dot to replace and no file name.
                    assert(has_only(word, CharClass::Slash));
                    assert(has_no(word, CharClass::Dot)) by {
                        assert forall|i: int| 0 <= i < word.len() implies !CharClass::Dot.holds(
                            #[trigger] word[i],
                        ) by {
                            assert(CharClass::Slash.holds(word[i]));
                        }
                    }
                    assert(name == word);
                    lemma_first_word_of_word(word);
                }
            },
        }
    }
}

/// The last piece of a path without white space holds no white space.
proof fn lemma_word_pieces_have_no_space(t: Seq<char>)
    requires
        has_no(t, CharClass::Space),
    ensures
        has_no(file_component(t), CharClass::Space),
    decreases t.len(),
{
    let cut = run_start(t, t.len() as int, CharClass::Slash, false);
    lemma_run_start(t, t.len() as int, CharClass::Slash, false);
    let piece = t.skip(cut);
    if piece.len() != 0 && piece != seq!['.'] {
        assert forall|i: int| 0 <= i < piece.len() implies !CharClass::Space.holds(
            #[trigger] piece[i],
        ) by {
            assert(piece[i] == t[cut + i]);
        }
    } else if 0 < cut {
        let rest = t.take(cut - 1);
        assert forall|i: int| 0 <= i < rest.len() implies !CharClass::Space.holds(
            #[trigger] rest[i],
        ) by {
            assert(rest[i] == t[i]);
        }
        lemma_word_pieces_have_no_space(rest);
    }
}

/// A name without white space, separator or dot is the name derived from it.
proof fn lemma_plain_name_is_its_own(n: Seq<char>)
    requires
        has_no(n, CharClass::Space),
        has_no(n, CharClass::Slash),
        has_no(n, CharClass::Dot),
    ensures
        derived_name(n) == n,
{
    lemma_first_word_of_word(n);
    assert(n != seq!['.']) by {
        if n == seq!['.'] {
            assert(CharClass::Dot.holds(n[0]));
        }
    }
    assert(n != seq!['.', '.']) by {
        if n == seq!['.', '.'] {
            assert(CharClass::Dot.holds(n[0]));
        }
    }
    lemma_file_component_of_piece(n);
    lemma_file_stem_of_stem(n);
    lemma_without_dots(n);
}

} // verus!
