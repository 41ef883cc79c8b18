//! The extension classifier: decides, purely lexically, whether a filename
//! denotes a supported raster image.

use vstd::prelude::*;
use crate::chars::{lower_char, lower_seq};
use crate::paths::ext_of;

verus! {

/// The supported raster-image extensions, as lowercase tokens.
pub open spec fn supported_ext_token(e: Seq<char>) -> bool {
    ||| e == "jpg"@
    ||| e == "jpeg"@
    ||| e == "png"@
    ||| e == "gif"@
    ||| e == "bmp"@
    ||| e == "webp"@
}

/// A path is accepted exactly when it has an extension whose ASCII
/// lowercasing is a supported raster-image token.
pub open spec fn accepted_path(p: Seq<char>) -> bool {
    match ext_of(p) {
        Some(e) => supported_ext_token(lower_seq(e)),
        None => false,
    }
}

/// Case-insensitive comparison of `s` against the lowercase token `t`:
/// true exactly when `s` lowercases to `t`.
fn matches_lower(s: &str, t: &str) -> (r: bool)
    ensures
        r == (lower_seq(s@) == t@),
{
    let n = s.unicode_len();
    if n != t.unicode_len() {
        proof {
            assert(lower_seq(s@).len() == s@.len());
        }
        return false;
    }
    let mut i: usize = 0;
    while i < n
        invariant
            0 <= i <= n,
            n == s@.len() == t@.len(),
            forall|j: int| 0 <= j < i ==> lower_char(#[trigger] s@[j]) == t@[j],
        decreases n - i,
    {
        if !crate::chars::lower_char_eq(s.get_char(i), t.get_char(i)) {
            proof {
                assert(lower_seq(s@)[i as int] != t@[i as int]);
            }
            return false;
        }
        i = i + 1;
    }
    proof {
        assert(lower_seq(s@) =~= t@);
    }
    true
}

/// Classify a path: true exactly when its extension, lowercased, is one of
/// the supported raster-image extensions. Purely lexical; the file itself is
/// never read.
pub fn img_validation(path: &String) -> (r: bool)
    ensures
        r == accepted_path(path@),
{
    let s = path.as_str();
    let len = s.unicode_len();
    let start: usize = match crate::paths::find_last(s, '/') {
        Some(i) => i + 1,
        None => 0,
    };
    let comp = s.substring_char(start, len);
    proof {
        assert(comp@ =~= crate::paths::last_component(path@));
    }
    let complen = len - start;
    match crate::paths::find_last(comp, '.') {
        Some(i) => {
            if i == 0 {
                return false;
            }
            let e = comp.substring_char(i + 1, complen);
            proof {
                assert(Some(e@) == ext_of(path@));
            }
            matches_lower(e, "jpg") || matches_lower(e, "jpeg") || matches_lower(e, "png")
                || matches_lower(e, "gif") || matches_lower(e, "bmp") || matches_lower(e, "webp")
        },
        None => false,
    }
}

/// For a target character that is neither an uppercase nor a lowercase
/// ASCII letter, lowercasing changes nothing about being that character.
proof fn lemma_lower_char_fixed(c: char, t: char)
    requires
        !(65 <= t as u32 <= 90),
        !(97 <= t as u32 <= 122),
    ensures
        (c == t) <==> (lower_char(c) == t),
{
    if 65 <= c as u32 <= 90 {
        assert(lower_char(c) as u32 == c as u32 + 32);
    }
}

/// Two sequences that agree on where `c` occurs have the same last
/// occurrence of `c`.
proof fn lemma_last_index_of_congruent(p: Seq<char>, q: Seq<char>, c: char)
    requires
        p.len() == q.len(),
        forall|i: int| 0 <= i < p.len() ==> ((#[trigger] p[i] == c) <==> (#[trigger] q[i] == c)),
    ensures
        crate::paths::last_index_of(p, c) == crate::paths::last_index_of(q, c),
    decreases p.len(),
{
    if p.len() > 0 && !(p[p.len() - 1] == c) {
        assert(forall|i: int|
            0 <= i < p.drop_last().len() ==> ((#[trigger] p.drop_last()[i] == c) <==> (
            #[trigger] q.drop_last()[i] == c)));
        lemma_last_index_of_congruent(p.drop_last(), q.drop_last(), c);
    }
}

/// The classifier is case-insensitive: two paths with the same ASCII
/// lowercasing are accepted or rejected together.
pub proof fn lemma_classifier_case_insensitive(p: Seq<char>, q: Seq<char>)
    requires
        lower_seq(p) == lower_seq(q),
    ensures
        accepted_path(p) == accepted_path(q),
{
    assert(p.len() == q.len()) by {
        assert(lower_seq(p).len() == p.len());
        assert(lower_seq(q).len() == q.len());
    }
    assert forall|i: int| 0 <= i < p.len() implies lower_char(p[i]) == lower_char(q[i]) by {
        assert(lower_seq(p)[i] == lower_char(p[i]));
        assert(lower_seq(q)[i] == lower_char(q[i]));
    }
    assert forall|i: int| 0 <= i < p.len() implies ((#[trigger] p[i] == '/') <==> (#[trigger] q[i]
        == '/')) by {
        lemma_lower_char_fixed(p[i], '/');
        lemma_lower_char_fixed(q[i], '/');
    }
    lemma_last_index_of_congruent(p, q, '/');
    crate::paths::lemma_last_index_of_in_range(p, '/');
    crate::paths::lemma_last_index_of_in_range(q, '/');
    let np = crate::paths::last_component(p);
    let nq = crate::paths::last_component(q);
    assert(np.len() == nq.len());
    assert forall|i: int| 0 <= i < np.len() implies lower_char(np[i]) == lower_char(nq[i]) by {
        match crate::paths::last_index_of(p, '/') {
            Some(s) => {
                assert(np[i] == p[s + 1 + i]);
                assert(nq[i] == q[s + 1 + i]);
            },
            None => {},
        }
    }
    assert forall|i: int| 0 <= i < np.len() implies ((#[trigger] np[i] == '.') <==> (
    #[trigger] nq[i] == '.')) by {
        lemma_lower_char_fixed(np[i], '.');
        lemma_lower_char_fixed(nq[i], '.');
    }
    lemma_last_index_of_congruent(np, nq, '.');
    crate::paths::lemma_last_index_of_in_range(np, '.');
    crate::paths::lemma_last_index_of_in_range(nq, '.');
    match crate::paths::last_index_of(np, '.') {
        Some(d) => {
            if d > 0 {
                let extp = np.subrange(d + 1, np.len() as int);
                let extq = nq.subrange(d + 1, nq.len() as int);
                assert(lower_seq(extp) =~= lower_seq(extq)) by {
                    assert forall|i: int| 0 <= i < extp.len() implies lower_seq(extp)[i]
                        == lower_seq(extq)[i] by {
                        assert(lower_seq(extp)[i] == lower_char(extp[i]));
                        assert(lower_seq(extq)[i] == lower_char(extq[i]));
                        assert(extp[i] == np[d + 1 + i]);
                        assert(extq[i] == nq[d + 1 + i]);
                    }
                }
            }
        },
        None => {},
    }
}

} // verus!
