//! Lexical path utilities: the final component of a path, its stem (the part
//! before the last dot) and its extension (the part after the last dot).

use vstd::prelude::*;
use vstd::string::StringExecFns;

verus! {

/// The position of the last occurrence of `c` in `s`, if any.
pub open spec fn last_index_of(s: Seq<char>, c: char) -> Option<int>
    decreases s.len(),
{
    if s.len() == 0 {
        None
    } else if s[s.len() - 1] == c {
        Some(s.len() - 1)
    } else {
        last_index_of(s.drop_last(), c)
    }
}

/// `last_index_of` is pinned down by its two defining properties: it points
/// at an occurrence with none after it, and it is `None` exactly when there
/// is no occurrence.
pub proof fn lemma_last_index_of_characterization(s: Seq<char>, c: char, r: Option<int>)
    requires
        match r {
            Some(i) => 0 <= i < s.len() && s[i] == c && (forall|j: int|
                i < j < s.len() ==> s[j] != c),
            None => forall|j: int| 0 <= j < s.len() ==> s[j] != c,
        },
    ensures
        last_index_of(s, c) == r,
    decreases s.len(),
{
    if s.len() == 0 {
    } else if s[s.len() - 1] == c {
        match r {
            Some(i) => {
                assert(i == s.len() - 1);
            },
            None => {
                assert(false);
            },
        }
    } else {
        match r {
            Some(i) => {
                assert(i < s.len() - 1);
                assert(s.drop_last()[i] == c);
                lemma_last_index_of_characterization(s.drop_last(), c, r);
            },
            None => {
                lemma_last_index_of_characterization(s.drop_last(), c, r);
            },
        }
    }
}

/// When `last_index_of` finds an occurrence, its position lies within the
/// sequence.
pub proof fn lemma_last_index_of_in_range(s: Seq<char>, c: char)
    ensures
        match last_index_of(s, c) {
            Some(i) => 0 <= i < s.len() && s[i] == c,
            None => true,
        },
    decreases s.len(),
{
    if s.len() > 0 && s[s.len() - 1] != c {
        lemma_last_index_of_in_range(s.drop_last(), c);
    }
}

/// The final component of a path: everything after the last `'/'`, or the
/// whole path when it has no `'/'`.
pub open spec fn last_component(p: Seq<char>) -> Seq<char> {
    match last_index_of(p, '/') {
        Some(i) => p.subrange(i + 1, p.len() as int),
        None => p,
    }
}

/// The stem of a path: the part of the final component before its last dot.
/// A dot in first position does not split the name (a leading-dot name is
/// its own stem), and an empty final component has no stem.
pub open spec fn stem_of(p: Seq<char>) -> Option<Seq<char>> {
    let n = last_component(p);
    if n.len() == 0 {
        None
    } else {
        match last_index_of(n, '.') {
            Some(i) => if i > 0 {
                Some(n.subrange(0, i))
            } else {
                Some(n)
            },
            None => Some(n),
        }
    }
}

/// The extension of a path: the part of the final component after its last
/// dot, where a dot in first position introduces no extension.
pub open spec fn ext_of(p: Seq<char>) -> Option<Seq<char>> {
    let n = last_component(p);
    match last_index_of(n, '.') {
        Some(i) => if i > 0 {
            Some(n.subrange(i + 1, n.len() as int))
        } else {
            None
        },
        None => None,
    }
}

/// Find the position of the last occurrence of `c` in `s`.
pub fn find_last(s: &str, c: char) -> (r: Option<usize>)
    ensures
        match r {
            Some(i) => i < s@.len() && Some(i as int) == last_index_of(s@, c),
            None => last_index_of(s@, c) is None,
        },
{
    let len = s.unicode_len();
    let mut i: usize = len;
    while i > 0
        invariant
            i <= len,
            len == s@.len(),
            forall|j: int| i <= j < s@.len() ==> s@[j] != c,
        decreases i,
    {
        i = i - 1;
        if s.get_char(i) == c {
            proof {
                lemma_last_index_of_characterization(s@, c, Some(i as int));
            }
            return Some(i);
        }
    }
    proof {
        lemma_last_index_of_characterization(s@, c, None);
    }
    None
}

/// The stem of `path`, as `stem_of` gives it: the final component up to its
/// last dot, or `None` when the final component is empty.
pub fn get_file_name(path: &str) -> (r: Option<String>)
    ensures
        r is Some <==> stem_of(path@) is Some,
        match r {
            Some(s) => Some(s@) == stem_of(path@),
            None => stem_of(path@) is None,
        },
{
    let len = path.unicode_len();
    let start: usize = match find_last(path, '/') {
        Some(i) => i + 1,
        None => 0,
    };
    let comp = path.substring_char(start, len);
    proof {
        assert(comp@ =~= last_component(path@));
    }
    if start == len {
        return None;
    }
    let stem = match find_last(comp, '.') {
        Some(i) => if i > 0 {
            comp.substring_char(0, i)
        } else {
            comp
        },
        None => comp,
    };
    Some(String::from_str(stem))
}

} // verus!
