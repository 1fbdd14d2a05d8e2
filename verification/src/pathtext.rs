//! Paths as texts: a name under a directory, the directory of a path, and
//! the first of several candidates that exists.

use vstd::prelude::*;
use vstd::string::StringExecFns;
use vstd::string::StrSliceExecFns;
use crate::system::is_separator;
use crate::system::separator;
use crate::system::HostOs;
use crate::text::characters;
use crate::text::views;

verus! {

/// The path of `name` under the directory `base`: a separator is written
/// between them unless `base` is empty or ends in one already.
pub open spec fn join_path(os: HostOs, base: Seq<char>, name: Seq<char>) -> Seq<char> {
    if base.len() == 0 || is_separator(os, base.last()) {
        base + name
    } else {
        base.push(separator(os)) + name
    }
}

/// The path of `name` under the directory `base`.
pub fn child(os: HostOs, base: &str, name: &str) -> (path: String)
    ensures
        path@ == join_path(os, base@, name@),
{
    let mut path = String::from_str(base);
    let length = base.unicode_len();
    if length > 0 && !os.separates(base.get_char(length - 1)) {
        match os {
            HostOs::Windows => {
                proof {
                    reveal_strlit("\\");
                }
                path.append("\\");
            },
            _ => {
                proof {
                    reveal_strlit("/");
                }
                path.append("/");
            },
        }
        assert(path@ =~= base@.push(separator(os)));
    }
    path.append(name);
    path
}

/// The first of `candidates` that is among `present`, or `fallback` when
/// none is.
pub open spec fn first_match(
    candidates: Seq<Seq<char>>,
    present: Seq<Seq<char>>,
    fallback: Seq<char>,
) -> Seq<char>
    decreases candidates.len(),
{
    if candidates.len() == 0 {
        fallback
    } else if present.contains(candidates[0]) {
        candidates[0]
    } else {
        first_match(candidates.drop_first(), present, fallback)
    }
}

/// Whether `path` is one of `present`.
pub fn is_present(path: &String, present: &Vec<String>) -> (found: bool)
    ensures
        found == views(present@).contains(path@),
{
    let mut at: usize = 0;
    while at < present.len()
        invariant
            at <= present.len(),
            forall|i: int| 0 <= i < at ==> views(present@)[i] != path@,
        decreases present.len() - at,
    {
        if present[at] == *path {
            assert(views(present@)[at as int] == path@);
            return true;
        }
        at = at + 1;
    }
    false
}

/// The first of `candidates` that is among `present`, or `fallback` when
/// none is.
pub fn first_existing(candidates: &Vec<String>, present: &Vec<String>, fallback: String) -> (path:
    String)
    ensures
        path@ == first_match(views(candidates@), views(present@), fallback@),
{
    let mut at: usize = 0;
    assert(views(candidates@).skip(0) =~= views(candidates@));
    while at < candidates.len()
        invariant
            at <= candidates.len(),
            first_match(views(candidates@), views(present@), fallback@) == first_match(
                views(candidates@).skip(at as int),
                views(present@),
                fallback@,
            ),
        decreases candidates.len() - at,
    {
        let ghost rest = views(candidates@).skip(at as int);
        assert(rest[0] == candidates@[at as int]@);
        assert(rest.drop_first() =~= views(candidates@).skip(at + 1));
        if is_present(&candidates[at], present) {
            return candidates[at].clone();
        }
        at = at + 1;
    }
    assert(views(candidates@).skip(at as int).len() == 0);
    fallback
}

/// Law: the first candidate that is present wins, whatever follows it.
pub proof fn lemma_first_match_wins(
    candidates: Seq<Seq<char>>,
    present: Seq<Seq<char>>,
    fallback: Seq<char>,
    at: int,
)
    requires
        0 <= at < candidates.len(),
        present.contains(candidates[at]),
        forall|before: int| 0 <= before < at ==> !present.contains(candidates[before]),
    ensures
        first_match(candidates, present, fallback) == candidates[at],
    decreases at,
{
    if at > 0 {
        assert(!present.contains(candidates[0]));
        let rest = candidates.drop_first();
        assert forall|before: int| 0 <= before < at - 1 implies !present.contains(
            rest[before],
        ) by {
            assert(rest[before] == candidates[before + 1]);
        }
        lemma_first_match_wins(rest, present, fallback, at - 1);
    }
}

/// Law: where no candidate is present, the fallback is taken.
pub proof fn lemma_first_match_falls_back(
    candidates: Seq<Seq<char>>,
    present: Seq<Seq<char>>,
    fallback: Seq<char>,
)
    requires
        forall|at: int| 0 <= at < candidates.len() ==> !present.contains(candidates[at]),
    ensures
        first_match(candidates, present, fallback) == fallback,
    decreases candidates.len(),
{
    if candidates.len() > 0 {
        let rest = candidates.drop_first();
        assert forall|at: int| 0 <= at < rest.len() implies !present.contains(rest[at]) by {
            assert(rest[at] == candidates[at + 1]);
        }
        lemma_first_match_falls_back(rest, present, fallback);
    }
}

/// What `first_match` gives is one of the candidates or the fallback.
pub proof fn lemma_first_match_is_candidate(
    candidates: Seq<Seq<char>>,
    present: Seq<Seq<char>>,
    fallback: Seq<char>,
)
    ensures
        first_match(candidates, present, fallback) == fallback || candidates.contains(
            first_match(candidates, present, fallback),
        ),
    decreases candidates.len(),
{
    if candidates.len() > 0 && !present.contains(candidates[0]) {
        lemma_first_match_is_candidate(candidates.drop_first(), present, fallback);
        let found = first_match(candidates.drop_first(), present, fallback);
        if candidates.drop_first().contains(found) {
            let at = choose|i: int| 0 <= i < candidates.drop_first().len() && candidates.drop_first()[i] == found;
            assert(candidates[at + 1] == found);
        }
    } else if candidates.len() > 0 {
        assert(candidates[0] == first_match(candidates, present, fallback));
    }
}

/// `path` without the separators at its end.
pub open spec fn trim_separators(os: HostOs, path: Seq<char>) -> Seq<char>
    decreases path.len(),
{
    if path.len() > 0 && is_separator(os, path.last()) {
        trim_separators(os, path.drop_last())
    } else {
        path
    }
}

/// The position of the last separator of `path`, or -1 when it holds none.
pub open spec fn last_separator(os: HostOs, path: Seq<char>) -> int
    decreases path.len(),
{
    if path.len() == 0 {
        -1
    } else if is_separator(os, path.last()) {
        path.len() - 1
    } else {
        last_separator(os, path.drop_last())
    }
}

/// The directory that holds `path`, if `path` names one.
///
/// Separators at the end of `path` do not count. What stands before the last
/// separator that is left is the directory, again without the separators at
/// its end; where nothing but separators stands there, the directory is the
/// root, written as the first character of `path`. A path without a
/// separator between two components names no directory.
pub open spec fn parent_spec(os: HostOs, path: Seq<char>) -> Option<Seq<char>> {
    let trimmed = trim_separators(os, path);
    let at = last_separator(os, trimmed);
    if at < 0 {
        None
    } else {
        let directory = trim_separators(os, trimmed.take(at));
        if directory.len() == 0 {
            Some(trimmed.take(1))
        } else {
            Some(directory)
        }
    }
}

proof fn lemma_trim_separators(os: HostOs, path: Seq<char>, end: int)
    requires
        0 <= end <= path.len(),
        forall|i: int| end <= i < path.len() ==> is_separator(os, path[i]),
        end > 0 ==> !is_separator(os, path[end - 1]),
    ensures
        trim_separators(os, path) == path.take(end),
    decreases path.len() - end,
{
    if end < path.len() {
        lemma_trim_separators(os, path.drop_last(), end);
        assert(path.drop_last().take(end) =~= path.take(end));
    } else {
        assert(path.take(end) =~= path);
    }
}

proof fn lemma_last_separator(os: HostOs, path: Seq<char>, at: int)
    requires
        0 <= at <= path.len(),
        forall|i: int| at <= i < path.len() ==> !is_separator(os, path[i]),
        at > 0 ==> is_separator(os, path[at - 1]),
    ensures
        last_separator(os, path) == at - 1,
    decreases path.len() - at,
{
    if at < path.len() {
        lemma_last_separator(os, path.drop_last(), at);
    }
}

/// The directory that holds `path`, if `path` names one.
pub fn parent_directory(os: HostOs, path: &str) -> (directory: Option<String>)
    ensures
        match directory {
            Some(text) => parent_spec(os, path@) == Some(text@),
            None => parent_spec(os, path@) is None,
        },
{
    let chars = characters(path);
    let mut end: usize = chars.len();
    while end > 0 && os.separates(chars[end - 1])
        invariant
            end <= chars.len(),
            forall|i: int| end <= i < chars.len() ==> is_separator(os, chars@[i]),
        decreases end,
    {
        end = end - 1;
    }
    let ghost trimmed = path@.take(end as int);
    proof {
        lemma_trim_separators(os, path@, end as int);
    }
    let mut at: usize = end;
    while at > 0 && !os.separates(chars[at - 1])
        invariant
            at <= end <= chars.len(),
            chars@ == path@,
            trimmed == path@.take(end as int),
            forall|i: int| at <= i < end ==> !is_separator(os, trimmed[i]),
        decreases at,
    {
        at = at - 1;
    }
    proof {
        lemma_last_separator(os, trimmed, at as int);
    }
    if at == 0 {
        return None;
    }
    let mut stop: usize = at - 1;
    while stop > 0 && os.separates(chars[stop - 1])
        invariant
            stop < at <= end <= chars.len(),
            chars@ == path@,
            forall|i: int| stop <= i < at - 1 ==> is_separator(os, chars@[i]),
        decreases stop,
    {
        stop = stop - 1;
    }
    proof {
        let before = trimmed.take(at - 1);
        assert forall|i: int| stop <= i < before.len() implies is_separator(os, before[i]) by {
            assert(before[i] == chars@[i]);
        }
        lemma_trim_separators(os, before, stop as int);
        assert(before.take(stop as int) =~= path@.subrange(0, stop as int));
        assert(trimmed.take(1) =~= path@.subrange(0, 1));
    }
    if stop == 0 {
        Some(String::from_str(path.substring_char(0, 1)))
    } else {
        Some(String::from_str(path.substring_char(0, stop)))
    }
}

/// Law: a name without separators, written under a directory that does not
/// end in one, has that directory as its parent.
pub proof fn lemma_parent_of_child(os: HostOs, base: Seq<char>, name: Seq<char>)
    requires
        name.len() > 0,
        forall|i: int| 0 <= i < name.len() ==> !is_separator(os, name[i]),
        base.len() > 0,
        !is_separator(os, base.last()),
    ensures
        parent_spec(os, join_path(os, base, name)) == Some(base),
{
    let path = join_path(os, base, name);
    let at = base.len() as int;
    assert(path.last() == name.last());
    assert(trim_separators(os, path) == path);
    assert(path[at] == separator(os));
    assert forall|i: int| at + 1 <= i < path.len() implies !is_separator(os, path[i]) by {
        assert(path[i] == name[i - at - 1]);
    }
    lemma_last_separator(os, path, at + 1);
    assert(path.take(at) =~= base);
    assert(trim_separators(os, base) == base);
}

} // verus!
